use crate::quota::{default_quota, quota_of, reset_model, QuotaTracker, ServiceQuota};
use crate::scheduler::{due, TryTillSuccess};
use vstd::arithmetic::div_mod::lemma_fundamental_div_mod;
use vstd::arithmetic::div_mod::lemma_fundamental_div_mod_converse;
use vstd::prelude::*;

verus! {

/// Start hour (UTC, excluded) of the window in which tomorrow's forecast goes to the admin.
pub const BROADCAST_FROM_HOUR: u8 = 14;

/// End hour (UTC, excluded) of the forecast window.
pub const BROADCAST_TO_HOUR: u8 = 20;

/// Start hour (UTC, excluded) of the window in which the price goes to the admin.
pub const BTC_FROM_HOUR: u8 = 3;

/// End hour (UTC, excluded) of the price window.
pub const BTC_TO_HOUR: u8 = 6;

/// Offset from UTC, in seconds, of the zone whose calendar day decides staleness.
pub const FORECAST_UTC_OFFSET: i32 = 7200;

/// Position of today's data point in the daily block of a forecast.
pub const TODAY_INDEX: usize = 1;

/// Position of tomorrow's data point in the daily block of a forecast.
pub const TOMORROW_INDEX: usize = 2;

/// What the decisions read of a forecast response: the times, in epoch seconds, of
/// the data points of its daily block, or `None` when the response had no such block.
#[derive(Clone, Debug)]
pub struct ForecastTimes {
    pub daily: Option<Vec<i64>>,
}

/// An error that carries a message only.
#[derive(Clone, Debug)]
pub struct CustomError {
    pub msg: String,
}

/// Why a cached forecast cannot be used.
#[derive(Clone, Debug)]
pub enum ForecastError {
    /// The response lacks a field.
    MissingField { name: String },
    /// The daily block holds too few data points.
    ArrayIndex,
    /// Any other failure.
    Custom(CustomError),
}

/// The calendar day, counted from 1970-01-01, that holds epoch second `ts` at
/// `offset` seconds east of UTC.
pub open spec fn day_number(ts: int, offset: int) -> int {
    (ts + offset) / 86400
}

/// The calendar day that holds epoch second `ts` at `offset` seconds east of UTC.
pub fn day_number_of(ts: i64, offset: i32) -> (r: i64)
    ensures
        r == day_number(ts as int, offset as int),
{
    let s: i128 = ts as i128 + offset as i128;
    let q: i128 = s / 86400;
    let m: i128 = s % 86400;
    proof {
        lemma_fundamental_div_mod(s as int, 86400);
    }
    if m < 0 {
        proof {
            lemma_fundamental_div_mod_converse(s as int, 86400, q - 1, m + 86400);
        }
        (q - 1) as i64
    } else {
        proof {
            lemma_fundamental_div_mod_converse(s as int, 86400, q as int, m as int);
        }
        q as i64
    }
}

/// What to send for a forecast request that passed or failed the quota check.
#[derive(Clone, Copy, Debug, PartialEq, Eq, Structural)]
pub enum ForecastReply {
    /// The weather quota was spent: send the notice instead.
    QuotaExceeded,
    /// Send the forecast of the daily data point at this position.
    Forecast { day_index: usize },
}

/// Whether `forecast` holds a daily data point at `index`.
pub open spec fn has_point(forecast: Option<ForecastTimes>, index: int) -> bool {
    &&& forecast is Some
    &&& forecast.unwrap().daily is Some
    &&& forecast.unwrap().daily.unwrap().len() > index
}

/// Whether `forecast` holds a data point for tomorrow.
pub open spec fn has_tomorrow(forecast: Option<ForecastTimes>) -> bool {
    has_point(forecast, TOMORROW_INDEX as int)
}

/// The error reported for a forecast without the daily data point asked for: no
/// forecast at all, no daily block, or a daily block too short.
pub open spec fn point_error(forecast: Option<ForecastTimes>, e: ForecastError) -> bool {
    match forecast {
        None => e is Custom,
        Some(f) => match f.daily {
            None => e matches ForecastError::MissingField { name } && name@ == "daily"@,
            Some(_) => e is ArrayIndex,
        },
    }
}

/// The position `index` in the daily block of `forecast`, or why it holds no such point.
fn daily_point(forecast: &Option<ForecastTimes>, index: usize) -> (r: Result<usize, ForecastError>)
    ensures
        has_point(*forecast, index as int) ==> r == Ok::<usize, ForecastError>(index),
        !has_point(*forecast, index as int) ==> (r matches Err(e) && point_error(*forecast, e)),
{
    match forecast {
        None => Err(ForecastError::Custom(CustomError { msg: "Forecast data is not present.".to_owned() })),
        Some(f) => match &f.daily {
            None => Err(ForecastError::MissingField { name: "daily".to_owned() }),
            Some(d) => if d.len() > index {
                Ok(index)
            } else {
                Err(ForecastError::ArrayIndex)
            },
        },
    }
}

/// The data point for today in `forecast`, or why there is none.
pub fn today(forecast: &Option<ForecastTimes>) -> (r: Result<usize, ForecastError>)
    ensures
        has_point(*forecast, TODAY_INDEX as int) ==> r == Ok::<usize, ForecastError>(TODAY_INDEX),
        !has_point(*forecast, TODAY_INDEX as int) ==> (r matches Err(e) && point_error(*forecast, e)),
{
    daily_point(forecast, TODAY_INDEX)
}

/// The data point for tomorrow in `forecast`, or why there is none.
pub fn tomorrow(forecast: &Option<ForecastTimes>) -> (r: Result<usize, ForecastError>)
    ensures
        has_tomorrow(*forecast) ==> r == Ok::<usize, ForecastError>(TOMORROW_INDEX),
        !has_tomorrow(*forecast) ==> (r matches Err(e) && point_error(*forecast, e)),
{
    daily_point(forecast, TOMORROW_INDEX)
}

/// The quota mapping after a forecast request of `to`: one weather lookup less when
/// one was left, else unchanged.
pub open spec fn after_forecast_request(q: Map<Seq<char>, ServiceQuota>, to: Seq<char>) -> Map<Seq<char>, ServiceQuota> {
    if quota_of(q, to).weather_count > 0 {
        q.insert(
            to,
            ServiceQuota {
                weather_count: (quota_of(q, to).weather_count - 1) as u16,
                btc_count: quota_of(q, to).btc_count,
            },
        )
    } else {
        q
    }
}

/// The reply to a forecast request of `to`, when there is one to send.
pub open spec fn forecast_reply(q: Map<Seq<char>, ServiceQuota>, forecast: Option<ForecastTimes>, to: Seq<char>) -> Option<ForecastReply> {
    if quota_of(q, to).weather_count == 0 {
        Some(ForecastReply::QuotaExceeded)
    } else if has_tomorrow(forecast) {
        Some(ForecastReply::Forecast { day_index: TOMORROW_INDEX })
    } else {
        None
    }
}

/// Decides a request of `to` for tomorrow's forecast: with no weather lookup left the
/// quota notice is due; otherwise one lookup is taken and tomorrow's data point is
/// chosen, or the error that `tomorrow` gives is returned (the lookup stays taken).
pub fn forecast_for_tomorrow(quota: &mut QuotaTracker, forecast: &Option<ForecastTimes>, to: &str) -> (r: Result<ForecastReply, ForecastError>)
    requires
        old(quota).wf(),
    ensures
        final(quota).wf(),
        final(quota)@ == after_forecast_request(old(quota)@, to@),
        forecast_reply(old(quota)@, *forecast, to@) matches Some(reply) ==> r == Ok::<ForecastReply, ForecastError>(reply),
        forecast_reply(old(quota)@, *forecast, to@) is None ==> (r matches Err(e) && point_error(*forecast, e)),
{
    if !quota.try_consume_weather(to) {
        return Ok(ForecastReply::QuotaExceeded);
    }
    match tomorrow(forecast) {
        Ok(i) => Ok(ForecastReply::Forecast { day_index: i }),
        Err(e) => Err(e),
    }
}

/// Whether a cached forecast is stale at `now`: there is none, it lacks today's data
/// point, or that point's date differs from the date of `now` at `offset` seconds east
/// of UTC. The data point's date is read in UTC: the feed stamps a day with its local
/// midnight, east of UTC, which in UTC still falls on the day before.
pub open spec fn stale(last: Option<ForecastTimes>, now: int, offset: int) -> bool {
    match last {
        None => true,
        Some(f) => match f.daily {
            None => true,
            Some(d) => d.len() <= TODAY_INDEX || day_number(d@[TODAY_INDEX as int] as int, 0) != day_number(
                now,
                offset,
            ),
        },
    }
}

/// `ok` is a possible outcome of handing `reply` to `send_forecast`; with no reply to
/// send the attempt fails.
pub open spec fn forecast_sent<H: FnOnce(ForecastReply) -> bool>(send_forecast: H, reply: Option<ForecastReply>, ok: bool) -> bool {
    match reply {
        Some(x) => send_forecast.ensures((x,), ok),
        None => !ok,
    }
}

/// How one broadcast step relates the worker before (`w`) and after (`v`) it at `now`.
/// The forecast schedule, when due, takes a weather lookup from the admin and hands
/// the reply to `send_forecast`; the price schedule, when due, calls `send_btc_price`.
/// Each records `now` when its action reports success.
pub open spec fn broadcast_post<H: FnOnce(ForecastReply) -> bool, K: FnOnce() -> bool>(
    w: WebWorker,
    v: WebWorker,
    now: int,
    send_forecast: H,
    send_btc_price: K,
) -> bool {
    let text_due = due(w.last_text_broadcast.last_success as int, BROADCAST_FROM_HOUR as int, BROADCAST_TO_HOUR as int, now);
    let btc_due = due(w.last_btc_update.last_success as int, BTC_FROM_HOUR as int, BTC_TO_HOUR as int, now);
    &&& v.last_response == w.last_response
    &&& v.subscribers == w.subscribers
    &&& v.admin_id == w.admin_id
    &&& v.utc_offset == w.utc_offset
    &&& !text_due ==> v.quota == w.quota && v.last_text_broadcast == w.last_text_broadcast
    &&& text_due ==> v.quota@ == after_forecast_request(w.quota@, w.admin_id@)
    &&& text_due ==> exists|ok: bool|
        #[trigger] forecast_sent(send_forecast, forecast_reply(w.quota@, w.last_response, w.admin_id@), ok)
            && v.last_text_broadcast.last_success == (if ok {
            now
        } else {
            w.last_text_broadcast.last_success as int
        })
    &&& !btc_due ==> v.last_btc_update == w.last_btc_update
    &&& btc_due ==> exists|ok: bool|
        #[trigger] send_btc_price.ensures((), ok) && v.last_btc_update.last_success == (if ok {
            now
        } else {
            w.last_btc_update.last_success as int
        })
}

/// How one refresh step relates the worker before (`w`) and after (`v`) it at `now`:
/// either nothing was fetched, nothing changed and the cache was fresh, or a
/// forecast was fetched (`fetched`) and
/// cached, the subscriber list was fetched (kept as it was when that failed), and
/// every subscriber got the default quota, nobody else any.
pub open spec fn refresh_post<F: FnOnce() -> Option<ForecastTimes>, G: FnOnce() -> Option<Vec<String>>>(
    w: WebWorker,
    v: WebWorker,
    now: int,
    fetched: bool,
    inquire: F,
    fetch_subscribers: G,
) -> bool {
    &&& fetched == stale(w.last_response, now, w.utc_offset as int)
    &&& !fetched ==> v == w
    &&& fetched ==> exists|resp: Option<ForecastTimes>, subs: Option<Vec<String>>|
        #[trigger] inquire.ensures((), resp) && #[trigger] fetch_subscribers.ensures((), subs) && {
            &&& v.last_response == resp
            &&& v.subscribers == (match subs {
                Some(list) => list,
                None => w.subscribers,
            })
            &&& v.quota@ == reset_model(v.subscribers@, default_quota())
            &&& v.last_text_broadcast == w.last_text_broadcast
            &&& v.last_btc_update == w.last_btc_update
            &&& v.admin_id == w.admin_id
            &&& v.utc_offset == w.utc_offset
        }
}

/// The decision state of the periodic worker: the cached forecast, the subscribers,
/// their quotas, and the two daily schedules.
pub struct WebWorker {
    pub last_response: Option<ForecastTimes>,
    pub subscribers: Vec<String>,
    pub quota: QuotaTracker,
    pub last_text_broadcast: TryTillSuccess,
    pub last_btc_update: TryTillSuccess,
    pub admin_id: String,
    /// Offset from UTC, in seconds, of the zone whose day decides staleness.
    pub utc_offset: i32,
}

impl WebWorker {
    pub open spec fn wf(&self) -> bool {
        &&& self.quota.wf()
        &&& -86400 < self.utc_offset < 86400
    }

    /// Whether the cached forecast is stale at `now`.
    pub open spec fn stale_at(&self, now: int) -> bool {
        stale(self.last_response, now, self.utc_offset as int)
    }

    /// Whether the forecast schedule is due at `now`.
    pub open spec fn forecast_due(&self, now: int) -> bool {
        due(self.last_text_broadcast.last_success as int, BROADCAST_FROM_HOUR as int, BROADCAST_TO_HOUR as int, now)
    }

    /// Whether the price schedule is due at `now`.
    pub open spec fn price_due(&self, now: int) -> bool {
        due(self.last_btc_update.last_success as int, BTC_FROM_HOUR as int, BTC_TO_HOUR as int, now)
    }

    /// A worker with no forecast, no subscribers, no quotas, and schedules that never ran.
    pub fn new(admin_id: String, utc_offset: i32) -> (r: WebWorker)
        requires
            -86400 < utc_offset < 86400,
        ensures
            r.wf(),
            r.last_response is None,
            r.subscribers@.len() == 0,
            r.quota@ == Map::<Seq<char>, ServiceQuota>::empty(),
            r.last_text_broadcast.last_success == 0,
            r.last_btc_update.last_success == 0,
            r.admin_id == admin_id,
            r.utc_offset == utc_offset,
    {
        WebWorker {
            last_response: None,
            subscribers: Vec::new(),
            quota: QuotaTracker::new(),
            last_text_broadcast: TryTillSuccess::new(),
            last_btc_update: TryTillSuccess::new(),
            admin_id,
            utc_offset,
        }
    }

    /// Whether the cached forecast is stale at `now`, or why it cannot be told.
    pub fn is_outdated(&self, now: i64) -> (r: Result<bool, ForecastError>)
        requires
            self.wf(),
        ensures
            self.last_response is None ==> r == Ok::<bool, ForecastError>(true),
            self.last_response matches Some(f) && f.daily is None ==> (r matches Err(ForecastError::MissingField { name }) && name@ == "daily"@),
            self.last_response matches Some(f) && f.daily matches Some(d) && d.len() <= TODAY_INDEX ==> r matches Err(ForecastError::ArrayIndex),
            self.last_response matches Some(f) && f.daily matches Some(d) && d.len() > TODAY_INDEX ==> r == Ok::<bool, ForecastError>(
                stale(self.last_response, now as int, self.utc_offset as int),
            ),
    {
        match &self.last_response {
            None => Ok(true),
            Some(resp) => {
                let daily = match &resp.daily {
                    None => {
                        return Err(ForecastError::MissingField { name: "daily".to_owned() });
                    },
                    Some(d) => d,
                };
                if daily.len() <= TODAY_INDEX {
                    return Err(ForecastError::ArrayIndex);
                }
                let day = day_number_of(daily[TODAY_INDEX], 0);
                let today = day_number_of(now, self.utc_offset);
                Ok(day != today)
            },
        }
    }

    /// Whether a fresh forecast must be fetched at `now`: when the cache is stale, or
    /// when it cannot be read.
    pub fn needs_inquiry(&self, now: i64) -> (r: bool)
        requires
            self.wf(),
        ensures
            r == stale(self.last_response, now as int, self.utc_offset as int),
    {
        match self.is_outdated(now) {
            Ok(b) => b,
            Err(_) => true,
        }
    }

    /// When a fresh forecast is needed at `now`, calls `inquire` once and caches what it
    /// returns (`None` for a failed fetch), and returns `true`; otherwise changes nothing
    /// and returns `false`.
    pub fn inquire_if_needed<F: FnOnce() -> Option<ForecastTimes>>(&mut self, now: i64, inquire: F) -> (r: bool)
        requires
            old(self).wf(),
            stale(old(self).last_response, now as int, old(self).utc_offset as int) ==> inquire.requires(()),
        ensures
            final(self).wf(),
            r == stale(old(self).last_response, now as int, old(self).utc_offset as int),
            !r ==> *final(self) == *old(self),
            r ==> exists|resp: Option<ForecastTimes>|
                #[trigger] inquire.ensures((), resp) && *final(self) == (WebWorker { last_response: resp, ..*old(self) }),
    {
        if self.needs_inquiry(now) {
            let resp = inquire();
            self.last_response = resp;
            true
        } else {
            false
        }
    }
    /// The quota record of `user_id`, or `{0, 0}` when it holds none.
    pub fn get_user_quota(&self, user_id: &str) -> (r: ServiceQuota)
        requires
            self.wf(),
        ensures
            r == quota_of(self.quota@, user_id@),
    {
        self.quota.get_quota(user_id)
    }

    /// Stores `user_quota` for `user_id`, replacing any earlier record.
    pub fn set_user_quota(&mut self, user_id: &str, user_quota: ServiceQuota)
        requires
            old(self).wf(),
        ensures
            final(self).wf(),
            final(self).quota@ == old(self).quota@.insert(user_id@, user_quota),
            *final(self) == (WebWorker { quota: final(self).quota, ..*old(self) }),
    {
        self.quota.set_quota(user_id, user_quota)
    }

    /// Decides a request of `to` for tomorrow's forecast from the cached forecast; see
    /// `forecast_for_tomorrow`.
    pub fn send_forecast_for_tomorrow(&mut self, to: &str) -> (r: Result<ForecastReply, ForecastError>)
        requires
            old(self).wf(),
        ensures
            final(self).wf(),
            final(self).quota@ == after_forecast_request(old(self).quota@, to@),
            *final(self) == (WebWorker { quota: final(self).quota, ..*old(self) }),
            forecast_reply(old(self).quota@, old(self).last_response, to@) matches Some(reply) ==> r == Ok::<
                ForecastReply,
                ForecastError,
            >(reply),
            forecast_reply(old(self).quota@, old(self).last_response, to@) is None ==> (r matches Err(e)
                && point_error(old(self).last_response, e)),
    {
        forecast_for_tomorrow(&mut self.quota, &self.last_response, to)
    }

    /// Fetches a forecast when the cache is stale at `now`; after a fetch, whether it
    /// failed or not, refreshes the subscriber list and resets every quota to the default.
    /// Returns whether it fetched.
    pub fn refresh<F: FnOnce() -> Option<ForecastTimes>, G: FnOnce() -> Option<Vec<String>>>(
        &mut self,
        now: i64,
        inquire: F,
        fetch_subscribers: G,
    ) -> (r: bool)
        requires
            old(self).wf(),
            old(self).stale_at(now as int) ==> inquire.requires(()),
            old(self).stale_at(now as int) ==> fetch_subscribers.requires(()),
        ensures
            final(self).wf(),
            refresh_post(*old(self), *final(self), now as int, r, inquire, fetch_subscribers),
    {
        if self.inquire_if_needed(now, inquire) {
            let fetched = fetch_subscribers();
            match fetched {
                Some(list) => {
                    self.subscribers = list;
                },
                None => {},
            }
            self.quota.reset_all(&self.subscribers, ServiceQuota::default());
            true
        } else {
            false
        }
    }

    /// Runs both daily schedules at `now`: tomorrow's forecast to the admin, handed to
    /// `send_forecast`, and the price to the admin, through `send_btc_price`.
    pub fn try_broadcast<H: FnOnce(ForecastReply) -> bool, K: FnOnce() -> bool>(
        &mut self,
        now: i64,
        send_forecast: H,
        send_btc_price: K,
    )
        requires
            old(self).wf(),
            old(self).forecast_due(now as int) ==> forall|reply: ForecastReply| send_forecast.requires((reply,)),
            old(self).price_due(now as int) ==> send_btc_price.requires(()),
        ensures
            final(self).wf(),
            broadcast_post(*old(self), *final(self), now as int, send_forecast, send_btc_price),
    {
        if self.last_text_broadcast.is_due(BROADCAST_FROM_HOUR, BROADCAST_TO_HOUR, now) {
            let ghost q0 = self.quota@;
            let plan = forecast_for_tomorrow(&mut self.quota, &self.last_response, self.admin_id.as_str());
            let ghost expected = forecast_reply(q0, self.last_response, self.admin_id@);
            let action = move || -> (ok: bool)
                requires
                    forall|reply: ForecastReply| send_forecast.requires((reply,)),
                ensures
                    forecast_sent(send_forecast, expected, ok),
                {
                    match plan {
                        Ok(reply) => send_forecast(reply),
                        Err(_) => false,
                    }
                };
            self.last_text_broadcast.daily_at(BROADCAST_FROM_HOUR, BROADCAST_TO_HOUR, now, action);
        }
        self.last_btc_update.daily_at(BTC_FROM_HOUR, BTC_TO_HOUR, now, send_btc_price);
    }

    /// One timer tick: a refresh step, then a broadcast step.
    pub fn tick<
        F: FnOnce() -> Option<ForecastTimes>,
        G: FnOnce() -> Option<Vec<String>>,
        H: FnOnce(ForecastReply) -> bool,
        K: FnOnce() -> bool,
    >(&mut self, now: i64, inquire: F, fetch_subscribers: G, send_forecast: H, send_btc_price: K)
        requires
            old(self).wf(),
            old(self).stale_at(now as int) ==> inquire.requires(()),
            old(self).stale_at(now as int) ==> fetch_subscribers.requires(()),
            old(self).forecast_due(now as int) ==> forall|reply: ForecastReply| send_forecast.requires((reply,)),
            old(self).price_due(now as int) ==> send_btc_price.requires(()),
        ensures
            final(self).wf(),
            exists|mid: WebWorker, fetched: bool|
                #[trigger] refresh_post(*old(self), mid, now as int, fetched, inquire, fetch_subscribers) && broadcast_post(
                    mid,
                    *final(self),
                    now as int,
                    send_forecast,
                    send_btc_price,
                ),
    {
        let fetched = self.refresh(now, inquire, fetch_subscribers);
        let ghost mid = *self;
        assert(refresh_post(*old(self), mid, now as int, fetched, inquire, fetch_subscribers));
        self.try_broadcast(now, send_forecast, send_btc_price);
        assert(broadcast_post(mid, *self, now as int, send_forecast, send_btc_price));
    }
}

} // verus!
