//! Scheduled jobs: the job records, the patch applied by an update, the
//! in-memory store the commands act on, and the delay parser for
//! one-shot jobs. Persisting the store and evaluating cron expressions
//! happen outside the library.

use vstd::prelude::*;

use crate::text::{is_digit_char, str_eq, str_trim, trim_chars, u64_to_string};

verus! {

/// When a job runs.
#[derive(Clone, Debug)]
pub enum Schedule {
    /// A cron expression, optionally with a time zone.
    Cron { expr: String, tz: Option<String> },
    /// Once, at this time (seconds since the Unix epoch).
    At { at: i64 },
    /// Every interval, in milliseconds.
    Every { every_ms: u64 },
}

/// One scheduled job.
#[derive(Clone, Debug)]
pub struct CronJob {
    pub id: String,
    pub name: Option<String>,
    pub schedule: Schedule,
    /// The cron expression, for display; empty for one-shot jobs.
    pub expression: String,
    pub command: String,
    pub prompt: Option<String>,
    /// The next run (seconds since the Unix epoch).
    pub next_run: i64,
    pub last_run: Option<i64>,
    pub last_status: Option<String>,
    pub enabled: bool,
}

/// A partial update of a job; absent members leave the job's value.
#[derive(Clone, Debug)]
pub struct CronJobPatch {
    pub schedule: Option<Schedule>,
    pub command: Option<String>,
    pub name: Option<String>,
    pub enabled: Option<bool>,
}

impl Default for CronJobPatch {
    /// Nothing patched.
    fn default() -> (r: CronJobPatch)
        ensures
            r.schedule is None,
            r.command is None,
            r.name is None,
            r.enabled is None,
    {
        CronJobPatch { schedule: None, command: None, name: None, enabled: None }
    }
}

/// The display expression of a schedule: the cron expression itself,
/// empty for one-shot and interval jobs.
pub open spec fn spec_expression_of(s: Schedule) -> Seq<char> {
    match s {
        Schedule::Cron { expr, .. } => expr@,
        _ => Seq::empty(),
    }
}

/// The first run of a schedule created at `now`. A cron expression's
/// own evaluation is delegated to the scheduler that runs the store, so
/// a cron job is due immediately until it computes the real time.
pub open spec fn spec_first_run(s: Schedule, now: i64) -> int {
    match s {
        Schedule::Cron { .. } => now as int,
        Schedule::At { at } => at as int,
        Schedule::Every { every_ms } => if now + every_ms as int / 1000 <= i64::MAX {
            now + every_ms as int / 1000
        } else {
            i64::MAX as int
        },
    }
}

/// The in-memory job store; the embedding layer loads and persists it.
#[derive(Debug)]
pub struct CronStore {
    pub jobs: Vec<CronJob>,
    pub next_seq: u64,
}

impl CronStore {
    pub fn new() -> (r: CronStore)
        ensures
            r.jobs@.len() == 0,
            r.next_seq == 1,
    {
        CronStore { jobs: Vec::new(), next_seq: 1 }
    }
}

fn clone_schedule(s: &Schedule) -> (r: Schedule)
    ensures
        r == *s,
{
    match s {
        Schedule::Cron { expr, tz } => Schedule::Cron {
            expr: expr.clone(),
            tz: match tz {
                Some(t) => Some(t.clone()),
                None => None,
            },
        },
        Schedule::At { at } => Schedule::At { at: *at },
        Schedule::Every { every_ms } => Schedule::Every { every_ms: *every_ms },
    }
}

/// The schedule a time-zone-only update asks for: the job's cron
/// expression is kept and only the zone replaced. One-shot and
/// interval schedules carry no time zone, so there is nothing to patch.
pub fn with_timezone(current: &Schedule, tz: Option<String>) -> (r: Option<Schedule>)
    ensures
        *current matches Schedule::Cron { expr, tz: _ } ==> r == (Some(
            Schedule::Cron { expr, tz },
        )),
        !(*current is Cron) ==> r is None,
{
    match current {
        Schedule::Cron { expr, .. } => Some(Schedule::Cron { expr: expr.clone(), tz }),
        _ => None,
    }
}

fn expression_of(s: &Schedule) -> (r: String)
    ensures
        r@ == spec_expression_of(*s),
{
    match s {
        Schedule::Cron { expr, .. } => expr.clone(),
        _ => String::new(),
    }
}

fn first_run_of(s: &Schedule, now: i64) -> (r: i64)
    requires
        0 <= now < i64::MAX - 0x10000000000000,
    ensures
        r == spec_first_run(*s, now),
{
    match s {
        Schedule::Cron { .. } => now,
        Schedule::At { at } => *at,
        Schedule::Every { every_ms } => {
            let add = (*every_ms / 1000) as i64;
            proof {
                assert(*every_ms as int / 1000 <= u64::MAX as int / 1000);
            }
            if add >= 0 && now <= i64::MAX - add {
                now + add
            } else {
                i64::MAX
            }
        },
    }
}

/// Add a shell job to the store at a given time. The job's id is built
/// from the store's sequence counter and never repeats.
pub fn add_shell_job(
    store: &mut CronStore,
    name: Option<String>,
    schedule: Schedule,
    command: &str,
    now: i64,
) -> (job: CronJob)
    requires
        0 <= now < i64::MAX - 0x10000000000000,
        old(store).next_seq < u64::MAX,
    ensures
        final(store).jobs@ == old(store).jobs@.push(job),
        final(store).next_seq == old(store).next_seq + 1,
        job.id@ == "job-"@ + crate::text::spec_u64_digits(old(store).next_seq as nat),
        job.name == name,
        job.schedule == schedule,
        job.expression@ == spec_expression_of(schedule),
        job.command@ == command@,
        job.next_run == spec_first_run(schedule, now),
        job.enabled,
        job.last_run is None,
        job.last_status is None,
        job.prompt is None,
{
    let id = "job-".to_owned().concat(u64_to_string(store.next_seq).as_str());
    proof {
        assert(id@ =~= "job-"@ + crate::text::spec_u64_digits(old(store).next_seq as nat));
    }
    store.next_seq = store.next_seq + 1;
    let expression = expression_of(&schedule);
    let next_run = first_run_of(&schedule, now);
    let job = CronJob {
        id,
        name,
        schedule,
        expression,
        command: command.to_owned(),
        prompt: None,
        next_run,
        last_run: None,
        last_status: None,
        enabled: true,
    };
    store.jobs.push(clone_job(&job));
    job
}

fn clone_job(j: &CronJob) -> (r: CronJob)
    ensures
        r == *j,
{
    CronJob {
        id: j.id.clone(),
        name: match &j.name {
            Some(n) => Some(n.clone()),
            None => None,
        },
        schedule: clone_schedule(&j.schedule),
        expression: j.expression.clone(),
        command: j.command.clone(),
        prompt: match &j.prompt {
            Some(p) => Some(p.clone()),
            None => None,
        },
        next_run: j.next_run,
        last_run: j.last_run,
        last_status: j.last_status.clone(),
        enabled: j.enabled,
    }
}

/// Update the job with the given id: present patch members replace the
/// job's values, a new schedule renews the display expression and the
/// next run, and every other member of the job — and every other job of
/// the store — is unchanged. An unknown id is an error and leaves the
/// store unchanged.
pub fn update_job(store: &mut CronStore, id: &str, patch: CronJobPatch, now: i64) -> (r: Result<
    CronJob,
    String,
>)
    requires
        0 <= now < i64::MAX - 0x10000000000000,
    ensures
        final(store).next_seq == old(store).next_seq,
        r matches Ok(job) ==> exists|k: int|
            0 <= k < old(store).jobs@.len() && (#[trigger] old(store).jobs@[k]).id@ == id@ && ({
                let prev = old(store).jobs@[k];
                &&& final(store).jobs@ == old(store).jobs@.update(k, job)
                &&& job.id == prev.id
                &&& job.schedule == (match patch.schedule {
                    Some(sch) => sch,
                    None => prev.schedule,
                })
                &&& (patch.schedule is None ==> job.expression == prev.expression)
                &&& (patch.schedule matches Some(sch) ==> job.expression@ == spec_expression_of(
                    sch,
                ))
                &&& job.next_run == (match patch.schedule {
                    Some(sch) => spec_first_run(sch, now),
                    None => prev.next_run as int,
                })
                &&& job.command == (match patch.command {
                    Some(c) => c,
                    None => prev.command,
                })
                &&& job.name == (match patch.name {
                    Some(nm) => Some(nm),
                    None => prev.name,
                })
                &&& job.prompt == prev.prompt
                &&& job.last_run == prev.last_run
                &&& job.last_status == prev.last_status
                &&& job.enabled == (match patch.enabled {
                    Some(e) => e,
                    None => prev.enabled,
                })
            }),
        r is Err ==> (*final(store) == *old(store) && (forall|k: int|
            0 <= k < old(store).jobs@.len() ==> (#[trigger] old(store).jobs@[k]).id@ != id@)),
{
    let n = store.jobs.len();
    let mut i: usize = 0;
    while i < n
        invariant
            0 <= now < i64::MAX - 0x10000000000000,
            n == store.jobs@.len(),
            i <= n,
            *store == *old(store),
            forall|k: int| 0 <= k < i ==> (#[trigger] store.jobs@[k]).id@ != id@,
        decreases n - i,
    {
        if str_eq(store.jobs[i].id.as_str(), id) {
            let job = &store.jobs[i];
            let (schedule, expression, next_run) = match patch.schedule {
                Some(s) => {
                    let e = match &s {
                        Schedule::Cron { expr, .. } => expr.clone(),
                        _ => String::new(),
                    };
                    let nr = first_run_of(&s, now);
                    (s, e, nr)
                },
                None => (clone_schedule(&job.schedule), job.expression.clone(), job.next_run),
            };
            let updated = CronJob {
                id: job.id.clone(),
                name: match patch.name {
                    Some(nm) => Some(nm),
                    None => match &job.name {
                        Some(nm) => Some(nm.clone()),
                        None => None,
                    },
                },
                schedule,
                expression,
                command: match patch.command {
                    Some(c) => c,
                    None => job.command.clone(),
                },
                prompt: match &job.prompt {
                    Some(p) => Some(p.clone()),
                    None => None,
                },
                next_run,
                last_run: job.last_run,
                last_status: job.last_status.clone(),
                enabled: match patch.enabled {
                    Some(e) => e,
                    None => job.enabled,
                },
            };
            let result = clone_job(&updated);
            store.jobs.set(i, updated);
            return Ok(result);
        }
        i = i + 1;
    }
    let e = "No job with id ".to_owned().concat(id);
    Err(e)
}

/// Find a job by id.
pub fn get_job(store: &CronStore, id: &str) -> (r: Option<CronJob>)
    ensures
        r is Some ==> exists|k: int|
            0 <= k < store.jobs@.len() && (#[trigger] store.jobs@[k]).id@ == id@,
        r is None ==> forall|k: int|
            0 <= k < store.jobs@.len() ==> (#[trigger] store.jobs@[k]).id@ != id@,
{
    let n = store.jobs.len();
    let mut i: usize = 0;
    while i < n
        invariant
            n == store.jobs@.len(),
            i <= n,
            forall|k: int| 0 <= k < i ==> (#[trigger] store.jobs@[k]).id@ != id@,
        decreases n - i,
    {
        if str_eq(store.jobs[i].id.as_str(), id) {
            return Some(clone_job(&store.jobs[i]));
        }
        i = i + 1;
    }
    None
}

/// Disable a job: only its enabled flag changes, nothing else of it,
/// and no other job of the store.
pub fn pause_job(store: &mut CronStore, id: &str, now: i64) -> (r: Result<CronJob, String>)
    requires
        0 <= now < i64::MAX - 0x10000000000000,
    ensures
        final(store).next_seq == old(store).next_seq,
        r matches Ok(job) ==> exists|k: int|
            0 <= k < old(store).jobs@.len() && (#[trigger] old(store).jobs@[k]).id@ == id@
                && final(store).jobs@ == old(store).jobs@.update(k, job) && job == (CronJob {
                enabled: false,
                ..old(store).jobs@[k]
            }),
        r is Err ==> (*final(store) == *old(store) && (forall|k: int|
            0 <= k < old(store).jobs@.len() ==> (#[trigger] old(store).jobs@[k]).id@ != id@)),
{
    let patch = CronJobPatch { schedule: None, command: None, name: None, enabled: Some(false) };
    update_job(store, id, patch, now)
}

/// Re-enable a job: the inverse of [`pause_job`] on the enabled flag,
/// with every other member — and every other job — unchanged.
pub fn resume_job(store: &mut CronStore, id: &str, now: i64) -> (r: Result<CronJob, String>)
    requires
        0 <= now < i64::MAX - 0x10000000000000,
    ensures
        final(store).next_seq == old(store).next_seq,
        r matches Ok(job) ==> exists|k: int|
            0 <= k < old(store).jobs@.len() && (#[trigger] old(store).jobs@[k]).id@ == id@
                && final(store).jobs@ == old(store).jobs@.update(k, job) && job == (CronJob {
                enabled: true,
                ..old(store).jobs@[k]
            }),
        r is Err ==> (*final(store) == *old(store) && (forall|k: int|
            0 <= k < old(store).jobs@.len() ==> (#[trigger] old(store).jobs@[k]).id@ != id@)),
{
    let patch = CronJobPatch { schedule: None, command: None, name: None, enabled: Some(true) };
    update_job(store, id, patch, now)
}

/// Add a one-shot shell job that runs at an absolute time.
pub fn add_once_at(store: &mut CronStore, at: i64, command: &str, now: i64) -> (job: CronJob)
    requires
        0 <= now < i64::MAX - 0x10000000000000,
        old(store).next_seq < u64::MAX,
    ensures
        final(store).jobs@ == old(store).jobs@.push(job),
        final(store).next_seq == old(store).next_seq + 1,
        job.schedule == (Schedule::At { at }),
        job.next_run == at,
        job.command@ == command@,
        job.name is None,
        job.enabled,
{
    add_shell_job(store, None, Schedule::At { at }, command, now)
}

/// Add a one-shot shell job after a parsed delay: the delay text is
/// parsed by [`parse_delay`] and the job scheduled that many seconds
/// after `now`; an unparseable delay is an error and leaves the store
/// unchanged.
pub fn add_once(store: &mut CronStore, delay: &str, command: &str, now: i64) -> (r: Result<
    CronJob,
    String,
>)
    requires
        0 <= now < i64::MAX - 0x20000000000000,
        old(store).next_seq < u64::MAX,
    ensures
        r is Err ==> *final(store) == *old(store),
        r matches Ok(job) ==> ({
            let t = trim_chars(delay@);
            let sp = spec_digit_prefix_end(t, 0);
            let amount = spec_decimal(t.subrange(0, sp));
            &&& t.len() > 0 && sp != 0 && amount <= MAX_DELAY_AMOUNT
            &&& spec_delay_secs(amount, t.skip(sp)) matches Some(secs) && job.schedule == (
            Schedule::At { at: (now + secs) as i64 }) && job.next_run == now + secs
            &&& job.command@ == command@
            &&& final(store).jobs@ == old(store).jobs@.push(job)
            &&& final(store).next_seq == old(store).next_seq + 1
        }),
{
    let secs = match parse_delay(delay) {
        Ok(secs) => secs,
        Err(e) => {
            return Err(e);
        },
    };
    let job = add_once_at(store, now + secs, command, now);
    Ok(job)
}

/// Apply a job update under the security policy, as the update command
/// does: a patched command that the policy refuses blocks the whole
/// update; otherwise the patch is applied by [`update_job`].
pub fn update_job_command_checked(
    store: &mut CronStore,
    security: &crate::security::SecurityPolicy,
    id: &str,
    patch: CronJobPatch,
    now: i64,
) -> (r: Result<CronJob, String>)
    requires
        0 <= now < i64::MAX - 0x10000000000000,
    ensures
        final(store).next_seq == old(store).next_seq,
        patch.command matches Some(c) ==> (!crate::security::spec_command_allowed(*security, c@)
            ==> (*final(store) == *old(store) && (r matches Err(e) && e@
            == "Command blocked by security policy: "@ + c@))),
        r matches Ok(job) ==> (match patch.command {
            Some(c) => crate::security::spec_command_allowed(*security, c@),
            None => true,
        }),
        r matches Ok(job) ==> exists|k: int|
            0 <= k < old(store).jobs@.len() && (#[trigger] old(store).jobs@[k]).id@ == id@
                && final(store).jobs@ == old(store).jobs@.update(k, job),
{
    match &patch.command {
        Some(cmd) => {
            if !security.is_command_allowed(cmd.as_str()) {
                let e = "Command blocked by security policy: ".to_owned().concat(cmd.as_str());
                proof {
                    assert(e@ =~= "Command blocked by security policy: "@ + cmd@);
                }
                return Err(e);
            }
        },
        None => {},
    }
    update_job(store, id, patch, now)
}

/// A one-shot delay: an amount and a unit (`s`, `m`, `h`, `d`; minutes
/// when no unit is given), in seconds.
pub open spec fn spec_delay_secs(amount: int, unit: Seq<char>) -> Option<int> {
    if unit == "s"@ {
        Some(amount)
    } else if unit == "m"@ || unit == ""@ {
        Some(amount * 60)
    } else if unit == "h"@ {
        Some(amount * 3600)
    } else if unit == "d"@ {
        Some(amount * 86400)
    } else {
        None
    }
}

/// First index at or after `i` that is not an ASCII digit, or the
/// length.
pub open spec fn spec_digit_prefix_end(s: Seq<char>, i: int) -> int
    decreases s.len() - i,
{
    if i < 0 || i >= s.len() {
        s.len() as int
    } else if !is_digit_char(s[i]) {
        i
    } else {
        spec_digit_prefix_end(s, i + 1)
    }
}

/// The value of an all-digits decimal numeral.
pub open spec fn spec_decimal(s: Seq<char>) -> int
    decreases s.len(),
{
    if s.len() == 0 {
        0
    } else {
        spec_decimal(s.drop_last()) * 10 + (s.last() as u32 - 48)
    }
}

/// The largest delay amount accepted, in its own unit.
pub const MAX_DELAY_AMOUNT: u64 = 0x10000000;

/// Parse a delay such as `30s`, `5m`, `2h` or `1d` into seconds. A bare
/// number is minutes. An empty value, a missing number, a number too
/// large to handle, or an unknown unit is an error.
pub fn parse_delay(input: &str) -> (r: Result<i64, String>)
    ensures
        ({
            let t = trim_chars(input@);
            let sp = spec_digit_prefix_end(t, 0);
            let amount = spec_decimal(t.subrange(0, sp));
            if t.len() == 0 {
                r matches Err(e) && e@ == "delay must not be empty"@
            } else if sp == 0 {
                r matches Err(e) && e@ == "delay must start with a number"@
            } else if amount > MAX_DELAY_AMOUNT {
                r is Err
            } else {
                match spec_delay_secs(amount, t.skip(sp)) {
                    Some(v) => r matches Ok(got) && got == v as i64,
                    None => r is Err,
                }
            }
        }),
        r matches Ok(got) ==> 0 <= got <= 0x10000000 * 86400,
        r is Ok ==> 0 <= spec_decimal(
            trim_chars(input@).subrange(0, spec_digit_prefix_end(trim_chars(input@), 0)),
        ),
{
    let trimmed = str_trim(input);
    let n = trimmed.unicode_len();
    if n == 0 {
        return Err("delay must not be empty".to_owned());
    }
    let split = digit_prefix_len(trimmed);
    let num = trimmed.substring_char(0, split);
    let unit = trimmed.substring_char(split, n);
    proof {
        assert(num@ =~= trim_chars(input@).subrange(0, split as int));
        assert(unit@ =~= trim_chars(input@).skip(split as int));
    }
    if num.unicode_len() == 0 {
        return Err("delay must start with a number".to_owned());
    }
    let amount = match parse_u64_decimal(num) {
        Some(v) => v,
        None => {
            return Err("delay amount is too large".to_owned());
        },
    };
    if amount > MAX_DELAY_AMOUNT {
        return Err("delay amount is too large".to_owned());
    }
    let amount = amount as i64;
    if str_eq(unit, "s") {
        Ok(amount)
    } else if str_eq(unit, "m") || str_eq(unit, "") {
        Ok(amount * 60)
    } else if str_eq(unit, "h") {
        Ok(amount * 3600)
    } else if str_eq(unit, "d") {
        Ok(amount * 86400)
    } else {
        let e = "unsupported delay unit '".to_owned().concat(unit).concat("', use s/m/h/d");
        Err(e)
    }
}

/// Length of the leading run of ASCII digits.
fn digit_prefix_len(s: &str) -> (r: usize)
    ensures
        r <= s@.len(),
        r == spec_digit_prefix_end(s@, 0),
        forall|k: int| 0 <= k < r ==> is_digit_char(#[trigger] s@[k]),
{
    let n = s.unicode_len();
    let mut i: usize = 0;
    while i < n
        invariant
            n == s@.len(),
            i <= n,
            spec_digit_prefix_end(s@, 0) == spec_digit_prefix_end(s@, i as int),
            forall|k: int| 0 <= k < i ==> is_digit_char(#[trigger] s@[k]),
        decreases n - i,
    {
        let v = s.get_char(i) as u32;
        if !(48 <= v && v <= 57) {
            return i;
        }
        i = i + 1;
    }
    n
}

proof fn lemma_decimal_nonneg(s: Seq<char>)
    requires
        forall|k: int| 0 <= k < s.len() ==> is_digit_char(#[trigger] s[k]),
    ensures
        spec_decimal(s) >= 0,
    decreases s.len(),
{
    if s.len() > 0 {
        lemma_decimal_nonneg(s.drop_last());
        assert(spec_decimal(s.drop_last()) * 10 >= 0) by (nonlinear_arith)
            requires
                spec_decimal(s.drop_last()) >= 0,
        ;
    }
}

proof fn lemma_decimal_prefix_le(s: Seq<char>, i: int)
    requires
        0 <= i <= s.len(),
        forall|k: int| 0 <= k < s.len() ==> is_digit_char(#[trigger] s[k]),
    ensures
        spec_decimal(s.subrange(0, i)) <= spec_decimal(s),
    decreases s.len() - i,
{
    if i == s.len() {
        assert(s.subrange(0, i) == s);
    } else {
        lemma_decimal_prefix_le(s, i + 1);
        let p = s.subrange(0, i + 1);
        assert(p.drop_last() =~= s.subrange(0, i));
        lemma_decimal_nonneg(s.subrange(0, i));
        assert(spec_decimal(s.subrange(0, i)) <= spec_decimal(p)) by (nonlinear_arith)
            requires
                spec_decimal(p) == spec_decimal(p.drop_last()) * 10 + (p.last() as u32 - 48),
                p.drop_last() == s.subrange(0, i),
                spec_decimal(s.subrange(0, i)) >= 0,
                48 <= p.last() as u32 <= 57,
        ;
    }
}

/// Parse an all-digits decimal numeral, refusing values over `u64`.
fn parse_u64_decimal(s: &str) -> (r: Option<u64>)
    requires
        s@.len() > 0,
        forall|k: int| 0 <= k < s@.len() ==> is_digit_char(#[trigger] s@[k]),
    ensures
        match r {
            Some(v) => v == spec_decimal(s@),
            None => spec_decimal(s@) > u64::MAX,
        },
{
    let n = s.unicode_len();
    let mut acc: u64 = 0;
    let mut i: usize = 0;
    while i < n
        invariant
            n == s@.len(),
            i <= n,
            acc == spec_decimal(s@.subrange(0, i as int)),
            forall|k: int| 0 <= k < s@.len() ==> is_digit_char(#[trigger] s@[k]),
        decreases n - i,
    {
        proof {
            assert(is_digit_char(s@[i as int]));
        }
        let d = (s.get_char(i) as u32 - 48) as u64;
        if acc > (u64::MAX - d) / 10 {
            proof {
                let p = s@.subrange(0, i as int + 1);
                assert(p.drop_last() =~= s@.subrange(0, i as int));
                assert(p.last() == s@[i as int]);
                assert(spec_decimal(p) > u64::MAX) by (nonlinear_arith)
                    requires
                        spec_decimal(p) == spec_decimal(p.drop_last()) * 10 + (p.last() as u32
                            - 48),
                        p.drop_last() == s@.subrange(0, i as int),
                        spec_decimal(s@.subrange(0, i as int)) == acc,
                        acc > (u64::MAX - d) / 10,
                        d == p.last() as u32 - 48,
                        d <= 9,
                ;
                lemma_decimal_prefix_le(s@, i as int + 1);
            }
            return None;
        }
        proof {
            assert(acc * 10 + d <= u64::MAX) by (nonlinear_arith)
                requires
                    acc <= (u64::MAX - d) / 10,
                    d <= 9,
            ;
            let p = s@.subrange(0, i as int + 1);
            assert(p.drop_last() =~= s@.subrange(0, i as int));
            assert(p.last() == s@[i as int]);
        }
        acc = acc * 10 + d;
        i = i + 1;
    }
    proof {
        assert(s@.subrange(0, n as int) == s@);
    }
    Some(acc)
}

} // verus!
