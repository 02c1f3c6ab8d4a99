//! What holds of the restream supervisor as a whole.

use crate::config::{backend_url, missing_engine, EngineProbe, Persisted, RestreamConfig};
use crate::pairing::pair_refusal;
use crate::supervisor::{
    doubled, elapsed, failed, initial, recent, report, restart, run_args, running, setup_report,
    start_refusal, starting, stopped, stopping, supervised, Status, Supervision, SuperviseAction,
    SuperviseEvent, FIRST_BACKOFF, MAX_BACKOFF, MAX_RESTARTS, RESTART_WINDOW, TOO_MANY_RESTARTS,
};
use crate::tail::{last_lines, sanitized, REDACTED};
use crate::text::{blank, decimal, has_text, maybe_text};
use vstd::arithmetic::power2::{lemma_pow2_unfold, pow2};
use vstd::prelude::*;

verus! {

/// The device token is not returned: whatever token a paired computer holds,
/// the same is shown of the supervisor and told to the setup page.
pub proof fn law_token_is_not_returned(s: Supervision, token: Seq<char>, engine: EngineProbe)
    requires
        s.persisted.device_token is Some,
    ensures
        ({
            let other = Supervision {
                persisted: Persisted { device_token: Some(token), ..s.persisted },
                ..s
            };
            &&& report(s, engine) == report(other, engine)
            &&& setup_report(s, engine) == setup_report(other, engine)
        }),
{
}

/// No line of the tail holds the device token.
pub open spec fn tail_is_clean(s: Supervision) -> bool {
    s.persisted.device_token matches Some(token) ==> forall|i: int|
        0 <= i < s.tail.len() ==> !has_text(#[trigger] s.tail[i], token)
}

/// The device token is not part of the supervisor's own fixed texts.
pub open spec fn token_is_distinct(s: Supervision) -> bool {
    s.persisted.device_token matches Some(token) ==> {
        &&& !has_text(REDACTED@, token)
        &&& !has_text("[supervisor] "@ + TOO_MANY_RESTARTS@, token)
    }
}

proof fn lemma_raw_line_keeps_clean(s: Supervision, line: Seq<char>)
    requires
        tail_is_clean(s),
        s.persisted.device_token matches Some(token) ==> !has_text(line, token),
    ensures
        tail_is_clean(s.with_raw_line(line)),
{
    let pushed = s.tail.push(line);
    if let Some(token) = s.persisted.device_token {
        assert forall|i: int| 0 <= i < last_lines(pushed).len() implies !has_text(
            #[trigger] last_lines(pushed)[i],
            token,
        ) by {
            let j = i + pushed.len() - last_lines(pushed).len();
            assert(last_lines(pushed)[i] == pushed[j]);
            if j < s.tail.len() {
                assert(!has_text(s.tail[j], token));
            }
        }
    }
}

/// A line that is pushed does not bring the device token into the tail.
pub proof fn law_pushed_line_keeps_token_out(s: Supervision, line: Seq<char>)
    requires
        tail_is_clean(s),
        token_is_distinct(s),
    ensures
        tail_is_clean(s.with_line(line)),
{
    lemma_raw_line_keeps_clean(s, sanitized(line, s.persisted.device_token));
}

proof fn lemma_failure_keeps_clean(s: Supervision, failure: Seq<char>, now: u64)
    requires
        tail_is_clean(s),
        token_is_distinct(s),
    ensures
        tail_is_clean(failed(s, failure, now).0),
{
    let marked = Supervision { child: false, ..s.with_error(failure) };
    law_pushed_line_keeps_token_out(marked, "[supervisor] "@ + failure);
    let noted = marked.with_line("[supervisor] "@ + failure);
    let tried = recent(noted.restarts, now).push(now);
    if tried.len() > MAX_RESTARTS {
        lemma_raw_line_keeps_clean(
            Supervision { restarts: tried, ..noted }.with_error(TOO_MANY_RESTARTS@),
            "[supervisor] "@ + TOO_MANY_RESTARTS@,
        );
    } else {
        let after = restart(noted, now).0;
        let seconds = noted.next_backoff;
        law_pushed_line_keeps_token_out(
            after,
            "[supervisor] Restarting in "@ + crate::text::decimal(seconds as nat)
                + " second(s)"@,
        );
    }
}

/// Whatever happens to the engine and whatever it says, watching it never
/// brings the device token into the tail.
pub proof fn law_supervision_keeps_token_out(s: Supervision, event: SuperviseEvent, now: u64)
    requires
        tail_is_clean(s),
        token_is_distinct(s),
    ensures
        tail_is_clean(supervised(s, event, now).0),
{
    match event {
        SuperviseEvent::Begin => {
            lemma_failure_keeps_clean(s, "restream engine was not running"@, now);
        },
        SuperviseEvent::Exited(status) => {
            lemma_failure_keeps_clean(
                s,
                "restream engine exited unexpectedly with "@ + status@,
                now,
            );
        },
        SuperviseEvent::MonitorFailed(error) => {
            lemma_failure_keeps_clean(s, "failed to monitor restream engine: "@ + error@, now);
        },
        SuperviseEvent::SpawnFailed(error) => {
            law_pushed_line_keeps_token_out(s.with_error(error@), "[supervisor] "@ + error@);
            lemma_failure_keeps_clean(
                s.with_error(error@).with_line("[supervisor] "@ + error@),
                "restream engine was not running"@,
                now,
            );
        },
        _ => {},
    }
}

/// A stop does not bring the device token into the tail, unless the error that
/// it failed with holds it.
pub proof fn law_stop_keeps_token_out(s: Supervision, error: Option<Seq<char>>)
    requires
        tail_is_clean(s),
        s.persisted.device_token matches Some(token) ==> (error matches Some(e) ==> !has_text(
            "[supervisor] "@ + e,
            token,
        )),
    ensures
        tail_is_clean(stopped(stopping(s), error)),
{
    if let Some(e) = error {
        let reset = Supervision {
            child: false,
            stopping: false,
            restarts: Seq::empty(),
            next_backoff: FIRST_BACKOFF,
            ..stopping(s)
        };
        lemma_raw_line_keeps_clean(reset.with_error(e), "[supervisor] "@ + e);
    }
}

/// No line that is shown of the supervisor holds the device token, unless the
/// engine's path does.
pub proof fn law_report_shows_no_token(s: Supervision, engine: EngineProbe, i: int)
    requires
        tail_is_clean(s),
        s.persisted.device_token matches Some(token) ==> !has_text(
            "[supervisor] "@ + missing_engine(engine.path@),
            token,
        ),
        0 <= i < report(s, engine).tail.len(),
    ensures
        s.persisted.device_token matches Some(token) ==> !has_text(
            report(s, engine).tail[i],
            token,
        ),
{
    let line = "[supervisor] "@ + missing_engine(engine.path@);
    lemma_raw_line_keeps_clean(s, line);
    assert(report(s, engine).tail == s.tail || report(s, engine).tail == s.with_raw_line(
        line,
    ).tail);
}

/// Once a stop is under way, nothing that happens to the engine makes it start
/// again, and the stop stays under way.
pub proof fn law_stop_is_not_followed_by_a_restart(
    s: Supervision,
    event: SuperviseEvent,
    now: u64,
)
    requires
        s.stopping,
    ensures
        supervised(s, event, now).1 != SuperviseAction::Spawn,
        supervised(s, event, now).0.stopping,
        !(event is StillRunning || event is Exited || event is MonitorFailed) ==> supervised(
            s,
            event,
            now,
        ).1 == SuperviseAction::Quit,
{
}

/// A watcher that quits leaves no watching task behind.
pub proof fn law_quitting_ends_the_task(s: Supervision, event: SuperviseEvent, now: u64)
    requires
        supervised(s, event, now).1 == SuperviseAction::Quit,
    ensures
        !supervised(s, event, now).0.supervisor_task,
{
}

/// What [`crate::supervisor::RestreamInner::record_pairing`] makes of a state.
pub open spec fn paired(
    s: Supervision,
    convex_url: Seq<char>,
    token: Seq<char>,
    org_name: Seq<char>,
) -> Supervision {
    Supervision {
        persisted: Persisted {
            convex_site_url: Some(convex_url),
            device_token: Some(token),
            org_name: Some(org_name),
        },
        ..s
    }
}

/// Once a computer is paired with the backend that is in use, the engine can be
/// started, and the setup page is told of the organization.
pub proof fn law_paired_computer_can_start(
    s: Supervision,
    convex_url: Seq<char>,
    token: Seq<char>,
    org_name: Seq<char>,
    engine: EngineProbe,
)
    requires
        engine.is_file,
        s.backend() == Some(convex_url),
    ensures
        start_refusal(paired(s, convex_url, token, org_name), engine) is None,
        report(paired(s, convex_url, token, org_name), engine).device_linked,
        setup_report(paired(s, convex_url, token, org_name), engine).org_name == Some(org_name),
{
}

/// No backend address is needed: with the configuration that is loaded, pairing
/// needs no more than a code and the engine, whatever the environment and what
/// has been saved say of the backend. On a first start it is the product's.
pub proof fn law_no_backend_address_is_needed(
    config: RestreamConfig,
    setting: Option<Seq<char>>,
    saved: Option<Seq<char>>,
    product: Seq<char>,
    code: Seq<char>,
    engine: EngineProbe,
)
    requires
        maybe_text(config.convex_site_url) == Some(backend_url(setting, saved, product)),
        !blank(code),
        engine.is_file,
    ensures
        pair_refusal(code, maybe_text(config.convex_site_url), engine) is None,
        setting is None && saved is None ==> maybe_text(config.convex_site_url) == Some(product),
{
}

/// A pairing outlasts the program: a supervisor that is made from what was saved
/// after it holds the same pairing and can start the engine, whatever the
/// environment says of the backend. Where it says nothing, the backend is the
/// one that was paired with.
pub proof fn law_pairing_outlasts_the_program(
    s: Supervision,
    convex_url: Seq<char>,
    token: Seq<char>,
    org_name: Seq<char>,
    setting: Option<Seq<char>>,
    product: Seq<char>,
    config: RestreamConfig,
    engine: EngineProbe,
)
    requires
        engine.is_file,
        maybe_text(config.convex_site_url) == Some(
            backend_url(
                setting,
                paired(s, convex_url, token, org_name).persisted.convex_site_url,
                product,
            ),
        ),
    ensures
        ({
            let next = initial(config, paired(s, convex_url, token, org_name).persisted, engine);
            &&& next.persisted == Persisted {
                convex_site_url: Some(convex_url),
                device_token: Some(token),
                org_name: Some(org_name),
            }
            &&& start_refusal(next, engine) is None
            &&& setup_report(next, engine).org_name == Some(org_name)
            &&& setting is None ==> next.backend() == Some(convex_url)
        }),
{
}

/// A stop that went well is final, whatever was under way: there is no engine
/// process and no watching task, restarts and delays start over, the
/// configuration and the pairing are as they were, and stopping again changes
/// nothing.
pub proof fn law_stop_is_final(s: Supervision, engine: EngineProbe)
    requires
        engine.is_file,
    ensures
        ({
            let after = stopped(stopping(s), None);
            &&& report(after, engine).status == "stopped"@
            &&& !after.child
            &&& !after.supervisor_task
            &&& !after.stopping
            &&& after.restarts == Seq::<u64>::empty()
            &&& after.next_backoff == FIRST_BACKOFF
            &&& after.config == s.config
            &&& after.persisted == s.persisted
            &&& stopped(stopping(after), None) == after
        }),
{
}

/// A stop that went well shows as stopped, keeps the tail and what has been
/// saved, and leaves the engine ready to be started as if for the first time.
pub proof fn law_stopped_engine_can_be_started(s: Supervision, engine: EngineProbe)
    requires
        engine.is_file,
    ensures
        ({
            let after = stopped(stopping(s), None);
            &&& report(after, engine).status == "stopped"@
            &&& after.tail == s.tail
            &&& after.persisted == s.persisted
            &&& !after.active()
            &&& start_refusal(after, engine) == start_refusal(s, engine)
            &&& starting(after) == starting(
                Supervision { child: false, supervisor_task: false, ..s },
            )
        }),
{
}

/// An engine that was started shows as running, and starting it again changes
/// nothing.
pub proof fn law_started_engine_is_running(s: Supervision, since_unix: u64, engine: EngineProbe)
    ensures
        report(running(starting(s), since_unix), engine).status == "running"@,
        report(running(starting(s), since_unix), engine).since == Some(since_unix),
        running(starting(s), since_unix).active(),
{
}

/// An engine that ends by itself is started again, after the delay that is
/// due, as long as it has not failed too often.
pub proof fn law_crash_is_followed_by_a_restart(
    s: Supervision,
    status: String,
    now: u64,
    later: u64,
)
    requires
        !s.stopping,
        recent(s.restarts, now).len() < MAX_RESTARTS,
    ensures
        ({
            let (after, action) = supervised(s, SuperviseEvent::Exited(status), now);
            &&& action == SuperviseAction::Sleep(s.next_backoff)
            &&& supervised(after, SuperviseEvent::DelayOver, later).1 == SuperviseAction::Spawn
        }),
{
}

/// The delay before the `n`-th restart after a start, counted from zero.
pub open spec fn nth_backoff(n: nat) -> u64
    decreases n,
{
    if n == 0 {
        FIRST_BACKOFF
    } else {
        doubled(nth_backoff((n - 1) as nat))
    }
}

/// Every restart that is made sets the delay of the next one.
pub proof fn law_backoff_moves_on(s: Supervision, now: u64, n: nat)
    requires
        s.next_backoff == nth_backoff(n),
        restart(s, now).1 is Some,
    ensures
        restart(s, now).1 == Some(nth_backoff(n)),
        restart(s, now).0.next_backoff == nth_backoff(n + 1),
{
}

/// The delays before restarts are the powers of two, up to thirty seconds.
pub proof fn law_backoff_doubles(n: nat)
    ensures
        nth_backoff(n) == if pow2(n) < MAX_BACKOFF {
            pow2(n)
        } else {
            MAX_BACKOFF as nat
        },
    decreases n,
{
    if n == 0 {
        vstd::arithmetic::power2::lemma2_to64();
    } else {
        law_backoff_doubles((n - 1) as nat);
        lemma_pow2_unfold(n);
    }
}

/// The restarts that the supervisor remembers once restarts have been tried at
/// the times of `history`.
pub open spec fn remembered(history: Seq<u64>) -> Seq<u64>
    decreases history.len(),
{
    if history.len() == 0 {
        Seq::empty()
    } else {
        recent(remembered(history.drop_last()), history.last()).push(history.last())
    }
}

/// Times in order.
pub open spec fn in_order(history: Seq<u64>) -> bool {
    forall|i: int, j: int| 0 <= i <= j < history.len() ==> history[i] <= history[j]
}

proof fn lemma_recent(restarts: Seq<u64>, now: u64) -> (from: int)
    ensures
        0 <= from <= restarts.len(),
        recent(restarts, now) == restarts.skip(from),
        forall|i: int| 0 <= i < from ==> elapsed(now, restarts[i]) > RESTART_WINDOW,
        from < restarts.len() ==> elapsed(now, restarts[from]) <= RESTART_WINDOW,
    decreases restarts.len(),
{
    if restarts.len() > 0 && elapsed(now, restarts[0]) > RESTART_WINDOW {
        let rest = restarts.drop_first();
        let from = lemma_recent(rest, now);
        assert(rest.skip(from) =~= restarts.skip(from + 1));
        assert forall|i: int| 0 <= i < from + 1 implies elapsed(now, restarts[i])
            > RESTART_WINDOW by {
            if i > 0 {
                assert(restarts[i] == rest[i - 1]);
            }
        }
        from + 1
    } else {
        assert(restarts.skip(0) =~= restarts);
        0
    }
}

/// What is remembered is the end of the history, from the first restart that
/// lies within the window on.
proof fn lemma_remembered(history: Seq<u64>) -> (from: int)
    requires
        in_order(history),
    ensures
        0 <= from <= history.len(),
        remembered(history) == history.skip(from),
        forall|i: int|
            0 <= i < from ==> elapsed(history.last(), #[trigger] history[i]) > RESTART_WINDOW,
        forall|i: int|
            from <= i < history.len() ==> elapsed(history.last(), #[trigger] history[i])
                <= RESTART_WINDOW,
    decreases history.len(),
{
    if history.len() == 0 {
        assert(history.skip(0) =~= Seq::<u64>::empty());
        0
    } else {
        let now = history.last();
        let earlier = history.drop_last();
        let start = lemma_remembered(earlier);
        let queue = remembered(earlier);
        let dropped = lemma_recent(queue, now);
        let from = start + dropped;
        assert(queue.skip(dropped).push(now) =~= history.skip(from));
        assert forall|i: int| 0 <= i < from implies elapsed(now, #[trigger] history[i])
            > RESTART_WINDOW by {
            assert(history[i] == earlier[i]);
            if i < start {
                assert(elapsed(earlier.last(), earlier[i]) > RESTART_WINDOW);
                assert(earlier.last() == history[history.len() - 2]);
            } else {
                assert(earlier[i] == queue[i - start]);
            }
        }
        assert forall|i: int| from <= i < history.len() implies elapsed(
            now,
            #[trigger] history[i],
        ) <= RESTART_WINDOW by {
            if from < earlier.len() {
                assert(queue[dropped] == history[from]);
            }
        }
        from
    }
}

/// At most five restarts are made in any ten minutes: with restarts tried at
/// the times of `history`, the last of them is made exactly if the sixth last
/// lies more than ten minutes back, or there are not that many.
pub proof fn law_restarts_are_limited(s: Supervision, history: Seq<u64>, now: u64)
    requires
        s.restarts == remembered(history),
        in_order(history.push(now)),
    ensures
        restart(s, now).0.restarts == remembered(history.push(now)),
        restart(s, now).1 is Some <==> history.len() < MAX_RESTARTS || now - history[history.len()
            - MAX_RESTARTS] > RESTART_WINDOW,
{
    let tried = history.push(now);
    assert(tried.drop_last() =~= history);
    let from = lemma_remembered(tried);
    assert(remembered(tried).len() == tried.len() - from);
    if history.len() >= MAX_RESTARTS {
        let sixth = history.len() - MAX_RESTARTS;
        assert(tried[sixth] == history[sixth]);
        assert(tried[sixth] <= tried[tried.len() - 1]);
    }
}

/// An error is shown with a message.
pub open spec fn error_is_told(s: Supervision) -> bool {
    s.status matches Status::Errored { message } ==> message.len() > 0
}

/// A new supervisor, and any that is watching the engine, shows no error
/// without a message, if failures to start the engine come with one.
pub proof fn law_errors_are_told(
    config: RestreamConfig,
    persisted: Persisted,
    engine: EngineProbe,
    s: Supervision,
    event: SuperviseEvent,
    now: u64,
)
    requires
        error_is_told(s),
        event matches SuperviseEvent::SpawnFailed(error) ==> error@.len() > 0,
    ensures
        error_is_told(initial(config, persisted, engine)),
        error_is_told(supervised(s, event, now).0),
{
    reveal_strlit("restream engine binary not found at ");
    reveal_strlit("restream engine was not running");
    reveal_strlit("restream engine exited unexpectedly with ");
    reveal_strlit("failed to monitor restream engine: ");
    reveal_strlit("restream engine exceeded 5 restarts in 10 minutes");
}

/// Whether `event` tells of an engine that has failed: it ended, it cannot be
/// watched, or there is none although none was stopped.
pub open spec fn is_failure(s: Supervision, event: SuperviseEvent) -> bool {
    match event {
        SuperviseEvent::Exited(_) => true,
        SuperviseEvent::MonitorFailed(_) => true,
        SuperviseEvent::Begin => !s.stopping && !s.child,
        SuperviseEvent::SpawnFailed(_) => !s.stopping && !s.child,
        _ => false,
    }
}

/// Restarts and delays count failures and nothing else: any other event leaves
/// them as they were and asks for no delay, and a failure adds its own time as
/// the latest.
pub proof fn law_only_failures_count(s: Supervision, event: SuperviseEvent, now: u64)
    ensures
        ({
            let (after, action) = supervised(s, event, now);
            if is_failure(s, event) {
                &&& after.restarts.len() > 0
                &&& after.restarts.last() == now
                &&& action is Sleep || action is Quit
                &&& action is Sleep ==> action == SuperviseAction::Sleep(s.next_backoff)
            } else {
                &&& after.restarts == s.restarts
                &&& after.next_backoff == s.next_backoff
                &&& !(action is Sleep)
            }
        }),
{
}

/// Looking at an engine that runs changes nothing at all.
pub proof fn law_watching_changes_nothing(s: Supervision, now: u64)
    requires
        !s.stopping,
    ensures
        supervised(s, SuperviseEvent::Tick, now) == (s, SuperviseAction::Poll),
        supervised(s, SuperviseEvent::StillRunning, now) == (s, SuperviseAction::Watch),
        s.child ==> supervised(s, SuperviseEvent::Begin, now) == (s, SuperviseAction::Watch),
{
}

/// What happens to a supervisor from one moment to the next.
pub enum Move {
    /// An event, and when it came.
    Happened(SuperviseEvent, u64),
    /// The engine was started, at this Unix time.
    Spawned(u64),
    /// The engine printed a line.
    Printed(Seq<char>),
}

/// The state after a move.
pub open spec fn moved(s: Supervision, m: Move) -> Supervision {
    match m {
        Move::Happened(event, now) => supervised(s, event, now).0,
        Move::Spawned(since_unix) => running(s, since_unix),
        Move::Printed(line) => s.with_line(line),
    }
}

/// The state after a run of moves.
pub open spec fn after_moves(s: Supervision, moves: Seq<Move>) -> Supervision
    decreases moves.len(),
{
    if moves.len() == 0 {
        s
    } else {
        moved(after_moves(s, moves.drop_last()), moves.last())
    }
}

/// The times of the failures in a run of moves.
pub open spec fn failures(s: Supervision, moves: Seq<Move>) -> Seq<u64>
    decreases moves.len(),
{
    if moves.len() == 0 {
        Seq::empty()
    } else {
        let past = failures(s, moves.drop_last());
        match moves.last() {
            Move::Happened(event, now) => if is_failure(
                after_moves(s, moves.drop_last()),
                event,
            ) {
                past.push(now)
            } else {
                past
            },
            _ => past,
        }
    }
}

/// How many restarts a run of moves brings about.
pub open spec fn restarts_made(s: Supervision, moves: Seq<Move>) -> nat
    decreases moves.len(),
{
    if moves.len() == 0 {
        0
    } else {
        let past = restarts_made(s, moves.drop_last());
        match moves.last() {
            Move::Happened(event, now) => if supervised(
                after_moves(s, moves.drop_last()),
                event,
                now,
            ).1 is Sleep {
                past + 1
            } else {
                past
            },
            _ => past,
        }
    }
}

/// From a start on, whatever happens in whatever order, the supervisor remembers
/// the failures that there have been, and its next delay is the one after as
/// many restarts as it has made.
pub proof fn law_run_counts_every_failure(s: Supervision, moves: Seq<Move>)
    ensures
        after_moves(starting(s), moves).restarts == remembered(failures(starting(s), moves)),
        after_moves(starting(s), moves).next_backoff == nth_backoff(
            restarts_made(starting(s), moves),
        ),
    decreases moves.len(),
{
    if moves.len() > 0 {
        let earlier = moves.drop_last();
        law_run_counts_every_failure(s, earlier);
        let before = after_moves(starting(s), earlier);
        let past = failures(starting(s), earlier);
        if let Move::Happened(event, now) = moves.last() {
            law_only_failures_count(before, event, now);
            if is_failure(before, event) {
                assert(past.push(now).drop_last() =~= past);
                assert(remembered(past.push(now)) == recent(remembered(past), now).push(now));
            }
        }
    }
}

proof fn lemma_remembered_is_no_longer(history: Seq<u64>)
    ensures
        remembered(history).len() <= history.len(),
    decreases history.len(),
{
    if history.len() > 0 {
        lemma_remembered_is_no_longer(history.drop_last());
        lemma_recent(remembered(history.drop_last()), history.last());
    }
}

/// The first five failures after a start are each followed by a restart.
pub proof fn law_first_failures_are_restarted(s: Supervision, moves: Seq<Move>)
    requires
        failures(starting(s), moves).len() <= 5,
    ensures
        restarts_made(starting(s), moves) == failures(starting(s), moves).len(),
    decreases moves.len(),
{
    if moves.len() > 0 {
        let earlier = moves.drop_last();
        law_first_failures_are_restarted(s, earlier);
        law_run_counts_every_failure(s, earlier);
        let before = after_moves(starting(s), earlier);
        let past = failures(starting(s), earlier);
        if let Move::Happened(event, now) = moves.last() {
            law_only_failures_count(before, event, now);
            lemma_remembered_is_no_longer(past);
            lemma_recent(before.restarts, now);
        }
    }
}

/// What follows a failure, after any run of moves from a start: a restart, after
/// a delay that is twice as long each time, from one second up to thirty; or,
/// if the fifth failure before it lies ten minutes back or less, the end.
pub proof fn law_failure_is_answered(
    s: Supervision,
    moves: Seq<Move>,
    event: SuperviseEvent,
    now: u64,
)
    requires
        is_failure(after_moves(starting(s), moves), event),
        in_order(failures(starting(s), moves).push(now)),
    ensures
        ({
            let past = failures(starting(s), moves);
            let n = restarts_made(starting(s), moves);
            let (after, action) = supervised(after_moves(starting(s), moves), event, now);
            if past.len() < 5 || now - past[past.len() - 5] > 600_000_000_000 {
                action == SuperviseAction::Sleep(
                    if pow2(n) < 30 {
                        pow2(n) as u64
                    } else {
                        30
                    },
                )
            } else {
                &&& action == SuperviseAction::Quit
                &&& !after.supervisor_task
                &&& after.status == (Status::Errored {
                    message: "restream engine exceeded 5 restarts in 10 minutes"@,
                })
            }
        }),
{
    let before = after_moves(starting(s), moves);
    let past = failures(starting(s), moves);
    let n = restarts_made(starting(s), moves);
    law_run_counts_every_failure(s, moves);
    law_backoff_doubles(n);
    law_restarts_are_limited(before, past, now);
}

/// A failure shows as an error that says what happened, in the status and in the
/// tail, and the engine process counts as gone. A restart is announced.
pub proof fn law_failure_is_shown(s: Supervision, event: SuperviseEvent, now: u64)
    requires
        is_failure(s, event),
        supervised(s, event, now).1 is Sleep,
    ensures
        ({
            let (after, action) = supervised(s, event, now);
            let token = s.persisted.device_token;
            let n = after.tail.len() as int;
            let message = match event {
                SuperviseEvent::Exited(status) => "restream engine exited unexpectedly with "@
                    + status@,
                SuperviseEvent::MonitorFailed(error) => "failed to monitor restream engine: "@
                    + error@,
                _ => "restream engine was not running"@,
            };
            &&& !after.child
            &&& after.status == (Status::Errored { message })
            &&& n >= 2
            &&& after.tail[n - 2] == sanitized("[supervisor] "@ + message, token)
            &&& after.tail[n - 1] == sanitized(
                "[supervisor] Restarting in "@ + decimal(action->Sleep_0 as nat) + " second(s)"@,
                token,
            )
        }),
{
}

/// Watching the engine never changes the configuration, the pairing or whether a
/// stop is under way, and the watching task ends exactly when it is told to.
pub proof fn law_supervision_keeps_the_rest(s: Supervision, event: SuperviseEvent, now: u64)
    ensures
        ({
            let (after, action) = supervised(s, event, now);
            &&& after.config == s.config
            &&& after.persisted == s.persisted
            &&& after.stopping == s.stopping
            &&& after.supervisor_task == (s.supervisor_task && action != SuperviseAction::Quit)
            &&& after.child ==> s.child
            &&& s.child && !after.child ==> is_failure(s, event)
            &&& s.supervisor_task && action != SuperviseAction::Quit ==> after.active()
        }),
{
}

/// After the delay the engine is being started, and shows so; nothing else
/// changes.
pub proof fn law_delay_is_followed_by_a_start(s: Supervision, now: u64, engine: EngineProbe)
    requires
        !s.stopping,
        engine.is_file,
    ensures
        ({
            let (after, action) = supervised(s, SuperviseEvent::DelayOver, now);
            &&& action == SuperviseAction::Spawn
            &&& report(after, engine).status == "starting"@
            &&& after.tail == s.tail
            &&& after.child == s.child
            &&& after.active()
        }),
{
}

/// Starting and running leave all else as it was: the configuration, the
/// pairing, the tail and, for an engine that is started again, the count of
/// restarts.
pub proof fn law_starting_keeps_the_rest(s: Supervision, since_unix: u64)
    ensures
        ({
            let begun = starting(s);
            &&& begun.config == s.config
            &&& begun.persisted == s.persisted
            &&& begun.tail == s.tail
            &&& begun.child == s.child
            &&& begun.supervisor_task == s.supervisor_task
            &&& !begun.stopping
            &&& begun.restarts.len() == 0
            &&& begun.next_backoff == 1
            &&& begun.active()
        }),
        ({
            let run = running(s, since_unix);
            &&& run.child
            &&& run.config == s.config
            &&& run.persisted == s.persisted
            &&& run.tail == s.tail
            &&& run.supervisor_task == s.supervisor_task
            &&& run.stopping == s.stopping
            &&& run.restarts == s.restarts
            &&& run.next_backoff == s.next_backoff
        }),
{
}

/// The engine is refused exactly if something is missing, and the refusal names
/// the first thing that is: the engine, the backend, the pairing.
pub proof fn law_start_needs_engine_backend_and_pairing(s: Supervision, engine: EngineProbe)
    ensures
        start_refusal(s, engine) is None <==> engine.is_file && s.config.convex_site_url is Some
            && s.persisted.device_token is Some,
        !engine.is_file ==> start_refusal(s, engine) == Some(
            "restream engine binary not found at "@ + engine.path@,
        ),
        engine.is_file && s.config.convex_site_url is None ==> start_refusal(s, engine) == Some(
            "RESTREAM_CONVEX_URL is not configured"@,
        ),
        engine.is_file && s.config.convex_site_url is Some && s.persisted.device_token is None
            ==> start_refusal(s, engine) == Some("restream device is not paired"@),
{
}

/// A supervisor is active exactly if its engine runs, is being started, or is
/// watched: one that stands still is not, and any of the three makes it so.
pub proof fn law_activity_is_status_or_watching(s: Supervision)
    ensures
        s.supervisor_task ==> s.active(),
        !s.supervisor_task && (s.status is Stopped || s.status is Errored) ==> !s.active(),
        s.status is Running || s.status is Starting ==> s.active(),
{
}

/// The engine is run with what is configured and saved: the backend in use, the
/// device token and the port, which is the one that the setup page names. The
/// video program is announced exactly if there is one, as the last argument.
pub proof fn law_engine_gets_what_is_configured(s: Supervision, engine: EngineProbe)
    requires
        start_refusal(s, engine) is None,
    ensures
        ({
            let args = run_args(s);
            &&& args.len() == if s.config.ffmpeg_path is Some {
                8nat
            } else {
                7nat
            }
            &&& args[0] == "run"@
            &&& args[1] == "--convex"@
            &&& maybe_text(s.config.convex_site_url) == Some(args[2])
            &&& args[3] == "--token"@
            &&& s.persisted.device_token == Some(args[4])
            &&& args[5] == "--port"@
            &&& args[6] == decimal(s.config.rtmp_port as nat)
            &&& s.config.ffmpeg_path is Some ==> args[7] == "--ffmpeg"@
            &&& setup_report(s, engine).server == "rtmp://127.0.0.1:"@ + args[6] + "/live"@
        }),
{
}

/// Engines with different ports are run differently: the port is not lost on
/// the way.
pub proof fn law_port_reaches_engine_and_setup_page(
    one: Supervision,
    other: Supervision,
    engine: EngineProbe,
)
    requires
        one.config.rtmp_port != other.config.rtmp_port,
    ensures
        run_args(one)[6] != run_args(other)[6],
        setup_report(one, engine).server != setup_report(other, engine).server,
{
    let a = decimal(one.config.rtmp_port as nat);
    let b = decimal(other.config.rtmp_port as nat);
    crate::text::law_decimal_is_read_back(one.config.rtmp_port as nat);
    crate::text::law_decimal_is_read_back(other.config.rtmp_port as nat);
    let head = "rtmp://127.0.0.1:"@;
    let tail = "/live"@;
    if head + a + tail == head + b + tail {
        assert((head + a + tail).len() == head.len() + a.len() + tail.len());
        assert((head + b + tail).len() == head.len() + b.len() + tail.len());
        assert(a =~= (head + a + tail).subrange(head.len() as int, head.len() as int + a.len()));
        assert(b =~= (head + b + tail).subrange(head.len() as int, head.len() as int + b.len()));
    }
}

/// The computer is shown as linked exactly if it holds a device token, and the
/// backend as configured exactly if there is one. With the engine in place, it
/// is both exactly if the engine can be started.
pub proof fn law_link_is_shown_as_it_is(s: Supervision, engine: EngineProbe)
    ensures
        report(s, engine).device_linked <==> s.persisted.device_token is Some,
        report(s, engine).convex_configured <==> s.config.convex_site_url is Some,
        setup_report(s, engine).device_linked == report(s, engine).device_linked,
        setup_report(s, engine).convex_configured == report(s, engine).convex_configured,
        setup_report(s, engine).status == report(s, engine).status,
        setup_report(s, engine).org_name == s.persisted.org_name,
        setup_report(s, engine).stream_key == "ocvoice"@,
        engine.is_file ==> (report(s, engine).device_linked && report(
            s,
            engine,
        ).convex_configured <==> start_refusal(s, engine) is None),
{
}

/// What the engine does is shown as it is: it runs, and since when, exactly if
/// it is known to; it is stopped or starting only if it is there to be started;
/// anything else is an error.
pub proof fn law_status_is_shown_as_it_is(s: Supervision, engine: EngineProbe)
    ensures
        s.status matches Status::Running { since_unix } ==> report(s, engine).status == "running"@
            && report(s, engine).since == Some(since_unix),
        !(s.status is Running) ==> report(s, engine).since is None,
        s.status is Stopped && engine.is_file ==> report(s, engine).status == "stopped"@,
        s.status is Starting && engine.is_file ==> report(s, engine).status == "starting"@,
        s.status is Errored || (!engine.is_file && !(s.status is Running)) ==> report(
            s,
            engine,
        ).status == "errored"@,
{
}

/// The tail is shown as it is. Only where the engine is missing, that is said
/// once more at its end, unless it is the last thing that was said.
pub proof fn law_tail_is_shown_as_it_is(s: Supervision, engine: EngineProbe)
    requires
        s.tail.len() <= 50,
    ensures
        engine.is_file || s.status is Running ==> report(s, engine).tail == s.tail,
        !engine.is_file && !(s.status is Running) ==> {
            let line = "[supervisor] restream engine binary not found at "@ + engine.path@;
            let shown = report(s, engine).tail;
            &&& shown.len() > 0
            &&& shown.len() <= 50
            &&& shown.last() == line
            &&& if s.tail.len() > 0 && s.tail.last() == line {
                shown == s.tail
            } else if s.tail.len() < 50 {
                shown == s.tail.push(line)
            } else {
                shown == s.tail.drop_first().push(line)
            }
        },
{
    reveal_strlit("[supervisor] ");
    reveal_strlit("restream engine binary not found at ");
    reveal_strlit("[supervisor] restream engine binary not found at ");
    let line = "[supervisor] restream engine binary not found at "@ + engine.path@;
    assert("[supervisor] "@ + missing_engine(engine.path@) =~= line);
    if s.tail.len() == 50 {
        assert(last_lines(s.tail.push(line)) =~= s.tail.drop_first().push(line));
    }
}

/// A line that is pushed is the last one of the tail, as far as it may be shown;
/// the lines before it are the latest of those that were there, and nothing else
/// changes.
pub proof fn law_pushed_line_is_the_last(s: Supervision, line: Seq<char>)
    requires
        s.tail.len() <= 50,
    ensures
        ({
            let after = s.with_line(line);
            let shown = sanitized(line, s.persisted.device_token);
            &&& after.tail == if s.tail.len() < 50 {
                s.tail.push(shown)
            } else {
                s.tail.drop_first().push(shown)
            }
            &&& after == Supervision { tail: after.tail, ..s }
        }),
{
    let shown = sanitized(line, s.persisted.device_token);
    if s.tail.len() == 50 {
        assert(last_lines(s.tail.push(shown)) =~= s.tail.drop_first().push(shown));
    }
}

/// A new supervisor holds what it was given and does nothing yet. It shows an
/// error, and says so in the tail, exactly if the engine is missing.
pub proof fn law_new_supervisor_stands_still(
    config: RestreamConfig,
    persisted: Persisted,
    engine: EngineProbe,
)
    ensures
        ({
            let s = initial(config, persisted, engine);
            &&& s.config == config
            &&& s.persisted == persisted
            &&& !s.child
            &&& !s.supervisor_task
            &&& !s.stopping
            &&& !s.active()
            &&& s.restarts.len() == 0
            &&& s.next_backoff == 1
            &&& report(s, engine).status == if engine.is_file {
                "stopped"@
            } else {
                "errored"@
            }
            &&& s.tail.len() == if engine.is_file {
                0nat
            } else {
                1nat
            }
            &&& report(s, engine).tail == s.tail
            &&& !engine.is_file ==> s.status == Status::Errored {
                message: "restream engine binary not found at "@ + engine.path@,
            }
        }),
{
    if engine.is_file {
        assert(initial(config, persisted, engine).tail =~= Seq::<Seq<char>>::empty());
    }
}

/// A stop that failed is an error that says so, in the status and as the last
/// line; the engine counts as gone all the same, and can be started anew.
pub proof fn law_failed_stop_is_told(s: Supervision, error: Seq<char>)
    requires
        s.tail.len() <= 50,
    ensures
        ({
            let after = stopped(stopping(s), Some(error));
            &&& after.status == (Status::Errored { message: error })
            &&& after.tail.last() == "[supervisor] "@ + error
            &&& !after.child
            &&& !after.supervisor_task
            &&& !after.stopping
            &&& !after.active()
            &&& after.restarts.len() == 0
            &&& after.next_backoff == 1
            &&& after.config == s.config
            &&& after.persisted == s.persisted
        }),
{
}

/// While a stop is under way, all is as it was but that it is, and that the
/// engine is no longer watched.
pub proof fn law_stop_begins_by_saying_so(s: Supervision)
    ensures
        stopping(s).stopping,
        !stopping(s).supervisor_task,
        stopping(s) == (Supervision { stopping: true, supervisor_task: false, ..s }),
{
}

/// A pairing is kept as it came, in place of any earlier one, and nothing else
/// changes by it.
pub proof fn law_pairing_is_kept_as_it_came(
    s: Supervision,
    convex_url: Seq<char>,
    token: Seq<char>,
    org_name: Seq<char>,
)
    ensures
        ({
            let after = paired(s, convex_url, token, org_name);
            &&& after.persisted.convex_site_url == Some(convex_url)
            &&& after.persisted.device_token == Some(token)
            &&& after.persisted.org_name == Some(org_name)
            &&& after == Supervision { persisted: after.persisted, ..s }
        }),
{
}

/// An engine that could not be started is told of in the tail, before it counts
/// as not running.
pub proof fn law_failed_start_is_told(s: Supervision, error: String, now: u64)
    requires
        !s.stopping,
        !s.child,
    ensures
        ({
            let (after, action) = supervised(s, SuperviseEvent::SpawnFailed(error), now);
            let token = s.persisted.device_token;
            let n = after.tail.len() as int;
            &&& n >= 3
            &&& after.tail[n - 3] == sanitized("[supervisor] "@ + error@, token)
            &&& after.tail[n - 2] == sanitized(
                "[supervisor] restream engine was not running"@,
                token,
            )
        }),
{
    reveal_strlit("[supervisor] ");
    reveal_strlit("restream engine was not running");
    reveal_strlit("[supervisor] restream engine was not running");
    assert("[supervisor] "@ + "restream engine was not running"@
        =~= "[supervisor] restream engine was not running"@);
}

/// Giving up is told, in the status and as the last line, after the failure that
/// was one too many.
pub proof fn law_giving_up_is_told(s: Supervision, event: SuperviseEvent, now: u64)
    requires
        is_failure(s, event),
        supervised(s, event, now).1 is Quit,
    ensures
        ({
            let after = supervised(s, event, now).0;
            let message = "restream engine exceeded 5 restarts in 10 minutes"@;
            &&& after.status == (Status::Errored { message })
            &&& after.tail.len() >= 2
            &&& after.tail.last() == "[supervisor] "@ + message
            &&& !after.child
            &&& !after.active()
        }),
{
}

} // verus!
