use vstd::prelude::*;
use crate::model::{ErrorKind, GachaEvent, GachaType, ServiceError};
use crate::time::{available_at, zone_day, next_day_start, next_window, UnixTime};

verus! {

/// Smallest reward of a daily draw.
pub const REWARD_MIN: u64 = 5;

/// One past the largest reward of a daily draw.
pub const REWARD_END: u64 = 16;

/// The reward that the random value `draw` selects, in `[REWARD_MIN, REWARD_END)`.
pub open spec fn reward_of(draw: u64) -> int {
    REWARD_MIN + (draw as int) % ((REWARD_END - REWARD_MIN) as int)
}

/// Whether a lookup of the latest daily event allows a new draw at `now`:
/// no event at all, or one on an earlier zone day.
pub open spec fn daily_allowed(offset: u64, found: Result<GachaEvent, ServiceError>, now: UnixTime) -> bool {
    match found {
        Ok(e) => available_at(offset, e.created_at, now),
        Err(e) => e.kind == ErrorKind::NotFound,
    }
}

/// The daily draw state of a user, as shown before drawing.
pub struct DailyGachaRecord {
    pub latest: Option<GachaEvent>,
    pub is_available: bool,
    pub next_gacha_time: UnixTime,
}

/// Runs the daily reward rules in a fixed time zone.
pub struct GachaService {
    /// Seconds by which the target time zone lies east of UTC.
    pub zone_offset: u64,
}

/// Where a daily draw stands between its writes.
#[derive(Clone, Copy, Debug, PartialEq, Eq, Structural)]
pub enum SagaPhase {
    /// The raised balance is being written.
    Saving,
    /// The event is being appended.
    Appending,
    /// The balance before the draw is being written back.
    Compensating,
    Finished,
}

/// How a daily draw ended.
pub enum DailyOutcome {
    /// The reward was granted and recorded.
    Granted(u64),
    /// The first write failed; nothing was changed.
    Rejected(ServiceError),
    /// The event could not be appended and the balance was restored.
    RolledBack(ServiceError),
    /// The event could not be appended, for the error held, and the balance
    /// could not be restored: it is raised with no event to show for it.
    Inconsistent(ServiceError),
}

impl DailyOutcome {
    /// What the caller of the draw is told.
    pub open spec fn result_spec(&self) -> Result<u64, ErrorKind> {
        match self {
            DailyOutcome::Granted(n) => Ok(*n),
            DailyOutcome::Rejected(e) => Err(e.kind),
            DailyOutcome::RolledBack(e) => Err(e.kind),
            DailyOutcome::Inconsistent(_) => Err(ErrorKind::Internal),
        }
    }

    /// What the caller of the draw is told: the reward, or the error. A lost
    /// rollback is reported as a generic internal failure.
    pub fn into_result(self) -> (r: Result<u64, ServiceError>)
        ensures
            r is Ok <==> self.result_spec() is Ok,
            r is Ok ==> r->Ok_0 == self.result_spec()->Ok_0,
            r is Err ==> r->Err_0.kind == self.result_spec()->Err_0,
            self is Rejected ==> r == Err::<u64, ServiceError>(self->Rejected_0),
            self is RolledBack ==> r == Err::<u64, ServiceError>(self->RolledBack_0),
    {
        match self {
            DailyOutcome::Granted(n) => Ok(n),
            DailyOutcome::Rejected(e) => Err(e),
            DailyOutcome::RolledBack(e) => Err(e),
            DailyOutcome::Inconsistent(_) => Err(ServiceError::operation_failed()),
        }
    }

    /// Whether the stores may disagree and need reconciling by hand.
    pub fn is_inconsistent(&self) -> (r: bool)
        ensures
            r == (self is Inconsistent),
    {
        match self {
            DailyOutcome::Inconsistent(_) => true,
            _ => false,
        }
    }
}

/// The next thing the caller of a daily draw has to do.
pub enum DailyAction {
    /// Persist the user with this point balance.
    SavePoint(u64),
    /// Append the draw's event.
    CreateEvent,
    /// Report the outcome; nothing is left to write.
    Finish(DailyOutcome),
}

/// A daily draw in progress: the balance before and after it, the event that
/// records it, and how far its writes have come.
pub struct DailySaga {
    pub original_point: u64,
    pub updated_point: u64,
    pub obtained: u64,
    pub event: GachaEvent,
    pub phase: SagaPhase,
    pub append_error: Option<ServiceError>,
}

impl DailySaga {
    /// A saga that is writing its balance back knows why the append failed.
    pub open spec fn wf(&self) -> bool {
        self.phase == SagaPhase::Compensating ==> self.append_error is Some
    }
}

/// The saga and the action that one step takes it to, given how the last
/// action went.
pub open spec fn saga_step(s: DailySaga, outcome: Result<(), ServiceError>) -> (DailySaga, DailyAction) {
    match s.phase {
        SagaPhase::Saving => match outcome {
            Ok(_) => (DailySaga { phase: SagaPhase::Appending, ..s }, DailyAction::CreateEvent),
            Err(e) => (
                DailySaga { phase: SagaPhase::Finished, ..s },
                DailyAction::Finish(DailyOutcome::Rejected(e)),
            ),
        },
        SagaPhase::Appending => match outcome {
            Ok(_) => (
                DailySaga { phase: SagaPhase::Finished, ..s },
                DailyAction::Finish(DailyOutcome::Granted(s.obtained)),
            ),
            Err(e) => (
                DailySaga { phase: SagaPhase::Compensating, append_error: Some(e), ..s },
                DailyAction::SavePoint(s.original_point),
            ),
        },
        _ => match outcome {
            Ok(_) => (
                DailySaga { phase: SagaPhase::Finished, ..s },
                DailyAction::Finish(DailyOutcome::RolledBack(s.append_error.unwrap())),
            ),
            Err(_) => (
                DailySaga { phase: SagaPhase::Finished, ..s },
                DailyAction::Finish(DailyOutcome::Inconsistent(s.append_error.unwrap())),
            ),
        },
    }
}

/// The saga of a daily draw from a balance of `point`, with the reward that
/// `draw` selects, recorded by `event`.
pub open spec fn daily_saga(point: u64, draw: u64, event: GachaEvent) -> DailySaga {
    DailySaga {
        original_point: point,
        updated_point: (point + reward_of(draw)) as u64,
        obtained: reward_of(draw) as u64,
        event,
        phase: SagaPhase::Saving,
        append_error: None,
    }
}

/// The event that records a daily draw.
pub open spec fn daily_event(event_id: String, user_id: String, now: UnixTime) -> GachaEvent {
    GachaEvent { id: event_id, user_id, gacha_type: GachaType::Daily, created_at: now }
}

impl GachaService {
    /// A service whose days begin at midnight `zone_offset` seconds east of UTC.
    pub fn new(zone_offset: u64) -> (r: GachaService)
        ensures
            r.zone_offset == zone_offset,
    {
        GachaService { zone_offset }
    }

    /// The latest daily event, from the lookup of it: a missing event is no
    /// error, any other failure of the lookup is passed on.
    pub fn get_latest_daily_event(&self, found: Result<GachaEvent, ServiceError>) -> (r: Result<Option<GachaEvent>, ServiceError>)
        ensures
            found is Ok ==> r == Ok::<Option<GachaEvent>, ServiceError>(Some(found->Ok_0)),
            found is Err && found->Err_0.kind == ErrorKind::NotFound ==> r == Ok::<Option<GachaEvent>, ServiceError>(None),
            found is Err && found->Err_0.kind != ErrorKind::NotFound ==> r == Err::<Option<GachaEvent>, ServiceError>(found->Err_0),
    {
        match found {
            Ok(e) => Ok(Some(e)),
            Err(e) => if e.is_not_found() {
                Ok(None)
            } else {
                Err(e)
            },
        }
    }

    /// The daily draw state at `now`, from the lookup of the latest daily event.
    /// With no event a draw is available and the next window is `now`.
    pub fn get_daily_gacha_record(&self, found: Result<GachaEvent, ServiceError>, now: UnixTime) -> (r: Result<DailyGachaRecord, ServiceError>)
        ensures
            found is Err && found->Err_0.kind != ErrorKind::NotFound ==> r == Err::<DailyGachaRecord, ServiceError>(found->Err_0),
            found is Err && found->Err_0.kind == ErrorKind::NotFound ==> r is Ok
                && r->Ok_0.latest is None && r->Ok_0.is_available && r->Ok_0.next_gacha_time == now,
            found is Ok ==> r is Ok
                && r->Ok_0.latest == Some(found->Ok_0)
                && r->Ok_0.is_available == available_at(self.zone_offset, found->Ok_0.created_at, now)
                && (next_day_start(self.zone_offset, found->Ok_0.created_at) <= u64::MAX ==>
                    r->Ok_0.next_gacha_time.seconds == next_day_start(self.zone_offset, found->Ok_0.created_at))
                && (next_day_start(self.zone_offset, found->Ok_0.created_at) > u64::MAX ==>
                    r->Ok_0.next_gacha_time.seconds == u64::MAX),
    {
        match self.get_latest_daily_event(found) {
            Err(e) => Err(e),
            Ok(None) => Ok(DailyGachaRecord { latest: None, is_available: true, next_gacha_time: now }),
            Ok(Some(e)) => {
                let is_available = e.is_available_at(self.zone_offset, now);
                let next_gacha_time = next_window(self.zone_offset, e.created_at);
                Ok(DailyGachaRecord { latest: Some(e), is_available, next_gacha_time })
            },
        }
    }

    /// Starts a daily draw for the user `user_id` with balance `point`, at `now`,
    /// given the lookup of their latest daily event and a random value `draw`.
    /// A draw within the window of the latest event is refused with no write;
    /// otherwise the returned saga drives the writes, the first of which is the
    /// raised balance.
    pub fn try_daily(
        &self,
        user_id: String,
        point: u64,
        found: Result<GachaEvent, ServiceError>,
        now: UnixTime,
        draw: u64,
        event_id: String,
    ) -> (r: Result<DailySaga, ServiceError>)
        ensures
            found is Err && !daily_allowed(self.zone_offset, found, now)
                ==> r == Err::<DailySaga, ServiceError>(found->Err_0),
            found is Ok && !daily_allowed(self.zone_offset, found, now)
                ==> r is Err && r->Err_0.kind == ErrorKind::RateLimited,
            daily_allowed(self.zone_offset, found, now) && point + reward_of(draw) > u64::MAX
                ==> r is Err && r->Err_0.kind == ErrorKind::Internal,
            daily_allowed(self.zone_offset, found, now) && point + reward_of(draw) <= u64::MAX
                ==> r == Ok::<DailySaga, ServiceError>(daily_saga(point, draw, daily_event(event_id, user_id, now))),
            r is Ok ==> r->Ok_0.wf() && r->Ok_0.phase == SagaPhase::Saving,
    {
        match found {
            Ok(latest) => {
                if !latest.is_available_at(self.zone_offset, now) {
                    return Err(ServiceError::rate_limited());
                }
            },
            Err(e) => {
                if !e.is_not_found() {
                    return Err(e);
                }
            },
        }
        let obtained: u64 = REWARD_MIN + draw % (REWARD_END - REWARD_MIN);
        if point > u64::MAX - obtained {
            return Err(ServiceError::point_overflow());
        }
        let event = GachaEvent { id: event_id, user_id, gacha_type: GachaType::Daily, created_at: now };
        Ok(DailySaga {
            original_point: point,
            updated_point: point + obtained,
            obtained,
            event,
            phase: SagaPhase::Saving,
            append_error: None,
        })
    }
}

impl DailySaga {
    /// The first write of a draw: the raised balance.
    pub fn first_action(&self) -> (r: DailyAction)
        requires
            self.phase == SagaPhase::Saving,
        ensures
            r == DailyAction::SavePoint(self.updated_point),
    {
        DailyAction::SavePoint(self.updated_point)
    }

    /// Advances the draw by how its last write went, and returns what to do next.
    pub fn step(&mut self, outcome: Result<(), ServiceError>) -> (r: DailyAction)
        requires
            old(self).wf(),
            old(self).phase != SagaPhase::Finished,
        ensures
            (*final(self), r) == saga_step(*old(self), outcome),
            final(self).wf(),
            r is Finish <==> final(self).phase == SagaPhase::Finished,
    {
        match self.phase {
            SagaPhase::Saving => match outcome {
                Ok(_) => {
                    self.phase = SagaPhase::Appending;
                    DailyAction::CreateEvent
                },
                Err(e) => {
                    self.phase = SagaPhase::Finished;
                    DailyAction::Finish(DailyOutcome::Rejected(e))
                },
            },
            SagaPhase::Appending => match outcome {
                Ok(_) => {
                    self.phase = SagaPhase::Finished;
                    DailyAction::Finish(DailyOutcome::Granted(self.obtained))
                },
                Err(e) => {
                    self.phase = SagaPhase::Compensating;
                    self.append_error = Some(e);
                    DailyAction::SavePoint(self.original_point)
                },
            },
            _ => {
                self.phase = SagaPhase::Finished;
                let first = match &self.append_error {
                    Some(e) => e.duplicate(),
                    None => ServiceError::operation_failed(),
                };
                match outcome {
                    Ok(_) => DailyAction::Finish(DailyOutcome::RolledBack(first)),
                    Err(_) => DailyAction::Finish(DailyOutcome::Inconsistent(first)),
                }
            },
        }
    }
}

/// The balance and the event log after `a`, an action of the saga `s`, was
/// carried out with result `outcome`: a write that succeeds takes effect, one
/// that fails leaves its store as it was.
pub open spec fn performed(
    point: u64,
    events: Seq<GachaEvent>,
    s: DailySaga,
    a: DailyAction,
    outcome: Result<(), ServiceError>,
) -> (u64, Seq<GachaEvent>) {
    match a {
        DailyAction::SavePoint(v) => if outcome is Ok { (v, events) } else { (point, events) },
        DailyAction::CreateEvent => if outcome is Ok { (point, events.push(s.event)) } else { (point, events) },
        DailyAction::Finish(_) => (point, events),
    }
}

/// With no daily event a draw is allowed at any instant; with one, exactly
/// from the first zone day after it.
pub proof fn lemma_eligibility(offset: u64, found: Result<GachaEvent, ServiceError>, now: UnixTime)
    ensures
        found is Err && found->Err_0.kind == ErrorKind::NotFound ==> daily_allowed(offset, found, now),
        found is Ok ==> (daily_allowed(offset, found, now)
            <==> zone_day(offset, now) > zone_day(offset, found->Ok_0.created_at)),
{
}

/// Every reward lies in `[REWARD_MIN, REWARD_END)`, whatever the random value.
pub proof fn lemma_reward_bounds(draw: u64)
    ensures
        REWARD_MIN <= reward_of(draw) < REWARD_END,
{
}

/// A user with no daily event may draw; when both writes succeed the reward is
/// granted and the event recorded; after that, a second draw on the same zone
/// day is refused.
pub proof fn lemma_single_success(
    offset: u64,
    user_id: String,
    point: u64,
    events: Seq<GachaEvent>,
    missing: ServiceError,
    now: UnixTime,
    later: UnixTime,
    draw: u64,
    event_id: String,
)
    requires
        missing.kind == ErrorKind::NotFound,
        zone_day(offset, now) == zone_day(offset, later),
        point + reward_of(draw) <= u64::MAX,
    ensures
        daily_allowed(offset, Err(missing), now),
        ({
            let s0 = daily_saga(point, draw, daily_event(event_id, user_id, now));
            let (s1, a1) = saga_step(s0, Ok(()));
            let (p1, ev1) = performed(point, events, s0, DailyAction::SavePoint(s0.updated_point), Ok(()));
            let (s2, a2) = saga_step(s1, Ok(()));
            let (p2, ev2) = performed(p1, ev1, s1, a1, Ok(()));
            &&& a2 == DailyAction::Finish(DailyOutcome::Granted(s0.obtained))
            &&& s2.phase == SagaPhase::Finished
            &&& p2 == point + reward_of(draw)
            &&& ev2 == events.push(daily_event(event_id, user_id, now))
        }),
        !daily_allowed(offset, Ok(daily_event(event_id, user_id, now)), later),
{
}

/// When the event cannot be appended and the balance is written back, the
/// balance and the event log end as they began, and the append's error is
/// what the caller is told.
pub proof fn lemma_rollback_restores(
    s0: DailySaga,
    events: Seq<GachaEvent>,
    append_error: ServiceError,
)
    requires
        s0.phase == SagaPhase::Saving,
    ensures
        ({
            let (s1, a1) = saga_step(s0, Ok(()));
            let (p1, ev1) = performed(s0.original_point, events, s0, DailyAction::SavePoint(s0.updated_point), Ok(()));
            let (s2, a2) = saga_step(s1, Err(append_error));
            let (p2, ev2) = performed(p1, ev1, s1, a1, Err(append_error));
            let (s3, a3) = saga_step(s2, Ok(()));
            let (p3, ev3) = performed(p2, ev2, s2, a2, Ok(()));
            &&& a3 == DailyAction::Finish(DailyOutcome::RolledBack(append_error))
            &&& s3.phase == SagaPhase::Finished
            &&& p3 == s0.original_point
            &&& ev3 == events
        }),
{
}

/// When neither the event nor the written-back balance can be stored, the
/// balance stays raised, no event is recorded, and the draw ends flagged as
/// inconsistent with an internal error for the caller.
pub proof fn lemma_lost_rollback_flagged(
    s0: DailySaga,
    events: Seq<GachaEvent>,
    append_error: ServiceError,
    rollback_error: ServiceError,
)
    requires
        s0.phase == SagaPhase::Saving,
    ensures
        ({
            let (s1, a1) = saga_step(s0, Ok(()));
            let (p1, ev1) = performed(s0.original_point, events, s0, DailyAction::SavePoint(s0.updated_point), Ok(()));
            let (s2, a2) = saga_step(s1, Err(append_error));
            let (p2, ev2) = performed(p1, ev1, s1, a1, Err(append_error));
            let (s3, a3) = saga_step(s2, Err(rollback_error));
            let (p3, ev3) = performed(p2, ev2, s2, a2, Err(rollback_error));
            &&& a3 == DailyAction::Finish(DailyOutcome::Inconsistent(append_error))
            &&& a3->Finish_0.result_spec() == Err::<u64, ErrorKind>(ErrorKind::Internal)
            &&& s3.phase == SagaPhase::Finished
            &&& p3 == s0.updated_point
            &&& ev3 == events
        }),
{
}

} // verus!
