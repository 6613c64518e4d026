//! Match notifications for a chat group: the retry schedule, the message template and the
//! rendering of a match into a message.
//!
//! Damage values are thousandths of a hit point.

use vstd::prelude::*;
use std::fmt::Write;
use crate::error::{app_error, AppError};
use crate::repository::matches::{MatchDto, MatchPlayerDto};
use crate::repository::notification_tasks::CreateNotificationTaskInput;
use crate::repository::points::beats;
use crate::sort::{key_view, sort_by_keys, sorted_by, KeyPart, KeyV};
use crate::text::{
    ascii_lower_seq, chars_of, chars_range, concat, i64_to_string, int_to_decimal, parse_i64, parse_i64_spec, str_eq,
    string_from_chars, to_ascii_lowercase, trim, trim_seq,
};

verus! {

broadcast use vstd::seq_lib::group_to_multiset_ensures;

#[derive(Debug, Clone)]
pub struct SendSelectedResultDto {
    pub sent_ids: Vec<i64>,
    pub failed_ids: Vec<i64>,
}

#[derive(Debug, Clone, PartialEq, Eq)]
pub struct NotificationTemplateLineConfigDto {
    pub id: String,
    pub prefix: String,
    pub suffix: String,
}

/// The order of the message's lines and the affixes of each line, keyed by line id (each
/// key at most once).
#[derive(Debug, Clone, PartialEq, Eq)]
pub struct NotificationTemplateConfigDto {
    pub order: Vec<String>,
    pub lines: Vec<(String, NotificationTemplateLineConfigDto)>,
}

// ----- retries and results ---------------------------------------------------------------

/// The wait before the next try of a failed send: 10, 20, then 40 seconds; after the third
/// retry there is none.
pub open spec fn retry_delay_seconds_spec(retry_count: i64) -> Option<i64> {
    if retry_count == 0 {
        Some(10i64)
    } else if retry_count == 1 {
        Some(20i64)
    } else if retry_count == 2 {
        Some(40i64)
    } else {
        None
    }
}

/// The wait before the next try of a failed send (see `retry_delay_seconds_spec`).
pub fn retry_delay_seconds(retry_count: i64) -> (res: Option<i64>)
    ensures
        res == retry_delay_seconds_spec(retry_count),
{
    match retry_count {
        0 => Some(10),
        1 => Some(20),
        2 => Some(40),
        _ => None,
    }
}

/// What happens to a task whose turn has come: a task of a settled match is cancelled, any
/// other is sent.
#[derive(Debug, Clone, Copy, PartialEq, Eq, Structural)]
pub enum TaskTurn {
    CancelSettled,
    Send,
}

pub fn task_turn(match_settled: bool) -> (res: TaskTurn)
    ensures
        res == if match_settled {
            TaskTurn::CancelSettled
        } else {
            TaskTurn::Send
        },
{
    if match_settled {
        TaskTurn::CancelSettled
    } else {
        TaskTurn::Send
    }
}

/// What follows a send: on success the task is sent and its match settled; on failure the
/// task is retried later with one more retry counted, or left for a manual resend.
#[derive(Debug, Clone)]
pub enum SendFollowUp {
    SentAndSettle,
    RetryLater { retry_count: i64, delay_seconds: i64, error: String },
    FailManual { error: String },
}

/// The follow-up of an automatic send of a task retried `retry_count` times so far: a
/// failure is retried after `retry_delay_seconds`, and once no delay is left it waits for a
/// manual resend.
pub fn automatic_send_follow_up(outcome: Result<(), AppError>, retry_count: i64) -> (res: SendFollowUp)
    ensures
        match outcome {
            Ok(()) => res is SentAndSettle,
            Err(AppError::Message(m)) => if 0 <= retry_count <= 2 {
                res matches SendFollowUp::RetryLater { retry_count: n, delay_seconds: d, error: e }
                    && n == retry_count + 1 && Some(d) == retry_delay_seconds_spec(retry_count) && e@ == m@
            } else {
                res matches SendFollowUp::FailManual { error: e } && e@ == m@
            },
        },
{
    match outcome {
        Ok(()) => SendFollowUp::SentAndSettle,
        Err(AppError::Message(m)) => match retry_delay_seconds(retry_count) {
            Some(d) => SendFollowUp::RetryLater { retry_count: retry_count + 1, delay_seconds: d, error: m },
            None => SendFollowUp::FailManual { error: m },
        },
    }
}

/// The follow-up of a manual resend: a failure waits for the next manual resend.
pub fn manual_send_follow_up(outcome: Result<(), AppError>) -> (res: SendFollowUp)
    ensures
        match outcome {
            Ok(()) => res is SentAndSettle,
            Err(AppError::Message(m)) => res matches SendFollowUp::FailManual { error: e } && e@ == m@,
        },
{
    match outcome {
        Ok(()) => SendFollowUp::SentAndSettle,
        Err(AppError::Message(m)) => SendFollowUp::FailManual { error: m },
    }
}

/// Files a resent task under sent when its stored status is "sent", else under failed.
pub fn apply_send_selected_result(task_id: i64, status: Option<&str>, sent_ids: &mut Vec<i64>, failed_ids: &mut Vec<i64>)
    ensures
        (status matches Some(s) && s@ == "sent"@) ==> (final(sent_ids)@ == old(sent_ids)@.push(task_id)
            && final(failed_ids)@ == old(failed_ids)@),
        !(status matches Some(s) && s@ == "sent"@) ==> (final(failed_ids)@ == old(failed_ids)@.push(task_id)
            && final(sent_ids)@ == old(sent_ids)@),
{
    let is_sent = match status {
        Some(s) => str_eq(s, "sent"),
        None => false,
    };
    if is_sent {
        sent_ids.push(task_id);
    } else {
        failed_ids.push(task_id);
    }
}

/// A boolean account setting: "1", "true", "yes", "on" are true and "0", "false", "no",
/// "off" false (trimmed, any case); anything else, or no value, is the default.
pub open spec fn account_bool_spec(value: Option<Seq<char>>, default_value: bool) -> bool {
    match value {
        None => default_value,
        Some(v) => {
            let n = ascii_lower_seq(trim_seq(v));
            if n == "1"@ || n == "true"@ || n == "yes"@ || n == "on"@ {
                true
            } else if n == "0"@ || n == "false"@ || n == "no"@ || n == "off"@ {
                false
            } else {
                default_value
            }
        },
    }
}

pub open spec fn text_of(o: Option<String>) -> Option<Seq<char>> {
    match o {
        Some(s) => Some(s@),
        None => None,
    }
}

/// Reads a boolean account setting from its stored value (`None` when not stored).
pub fn get_account_bool(value: Option<String>, default_value: bool) -> (res: bool)
    ensures
        res == account_bool_spec(text_of(value), default_value),
{
    let v = match value {
        Some(v) => v,
        None => {
            return default_value;
        },
    };
    let t = trim(v.as_str());
    let n = to_ascii_lowercase(t.as_str());
    let s = n.as_str();
    if str_eq(s, "1") || str_eq(s, "true") || str_eq(s, "yes") || str_eq(s, "on") {
        true
    } else if str_eq(s, "0") || str_eq(s, "false") || str_eq(s, "no") || str_eq(s, "off") {
        false
    } else {
        default_value
    }
}

// ----- the template ----------------------------------------------------------------------

/// The line ids of a message, in their default order.
pub open spec fn line_ids() -> Seq<Seq<char>> {
    seq!["header"@, "player1"@, "player2"@, "player3"@, "player4"@, "battle"@]
}

fn template_line_id(i: usize) -> (res: &'static str)
    requires
        i < 6,
    ensures
        res@ == line_ids()[i as int],
{
    match i {
        0 => "header",
        1 => "player1",
        2 => "player2",
        3 => "player3",
        4 => "player4",
        _ => "battle",
    }
}

fn is_template_line_id(id: &str) -> (res: bool)
    ensures
        res == line_ids().contains(id@),
{
    let mut i: usize = 0;
    while i < 6
        invariant
            i <= 6,
            forall|j: int| 0 <= j < i ==> line_ids()[j] != id@,
        decreases 6 - i,
    {
        if str_eq(template_line_id(i), id) {
            assert(line_ids()[i as int] == id@);
            return true;
        }
        i = i + 1;
    }
    assert(!line_ids().contains(id@)) by {
        if line_ids().contains(id@) {
            let j = choose|j: int| 0 <= j < line_ids().len() && line_ids()[j] == id@;
            assert(line_ids()[j] != id@);
        }
    }
    false
}

pub open spec fn line_view(l: NotificationTemplateLineConfigDto) -> (Seq<char>, Seq<char>, Seq<char>) {
    (l.id@, l.prefix@, l.suffix@)
}

/// The entries of a template as plain values.
pub open spec fn lines_view(lines: Seq<(String, NotificationTemplateLineConfigDto)>) -> Seq<(Seq<char>, (Seq<char>, Seq<char>, Seq<char>))> {
    lines.map_values(|e: (String, NotificationTemplateLineConfigDto)| (e.0@, line_view(e.1)))
}

/// The template in which every line has no affixes and the lines come in their default order.
pub fn default_template_config() -> (res: NotificationTemplateConfigDto)
    ensures
        res.order@.map_values(|s: String| s@) == line_ids(),
        lines_view(res.lines@) == line_ids().map_values(|id: Seq<char>| (id, (id, Seq::<char>::empty(), Seq::<char>::empty()))),
{
    let mut order: Vec<String> = Vec::new();
    let mut lines: Vec<(String, NotificationTemplateLineConfigDto)> = Vec::new();
    let mut i: usize = 0;
    while i < 6
        invariant
            i <= 6,
            order@.map_values(|s: String| s@) == line_ids().take(i as int),
            lines_view(lines@) == line_ids().take(i as int).map_values(
                |id: Seq<char>| (id, (id, Seq::<char>::empty(), Seq::<char>::empty())),
            ),
        decreases 6 - i,
    {
        let id = template_line_id(i);
        let ghost o = order@;
        let ghost l = lines@;
        order.push(id.to_string());
        let line = NotificationTemplateLineConfigDto { id: id.to_string(), prefix: String::new(), suffix: String::new() };
        lines.push((id.to_string(), line));
        proof {
            assert(line_ids().take(i + 1) =~= line_ids().take(i as int).push(id@));
            assert(order@.map_values(|s: String| s@) =~= o.map_values(|s: String| s@).push(id@));
            assert(lines_view(lines@) =~= lines_view(l).push((id@, (id@, Seq::<char>::empty(), Seq::<char>::empty()))));
            assert(line_ids().take(i + 1).map_values(|id: Seq<char>| (id, (id, Seq::<char>::empty(), Seq::<char>::empty())))
                =~= line_ids().take(i as int).map_values(|id: Seq<char>| (id, (id, Seq::<char>::empty(), Seq::<char>::empty()))).push(
                (id@, (id@, Seq::<char>::empty(), Seq::<char>::empty())),
            ));
        }
        i = i + 1;
    }
    assert(line_ids().take(6) =~= line_ids());
    NotificationTemplateConfigDto { order, lines }
}

/// The entry of a template for a line id (the first one with that key).
pub open spec fn entry_for(lines: Seq<(String, NotificationTemplateLineConfigDto)>, id: Seq<char>) -> Option<NotificationTemplateLineConfigDto>
    decreases lines.len(),
{
    if lines.len() == 0 {
        None
    } else if lines[0].0@ == id {
        Some(lines[0].1)
    } else {
        entry_for(lines.drop_first(), id)
    }
}

/// The first problem with a template's order among its first `n` ids: an unknown id or an
/// id met before.
pub open spec fn order_problem(order: Seq<String>, n: int) -> Option<Seq<char>>
    decreases n,
{
    if n <= 0 {
        None
    } else {
        match order_problem(order, n - 1) {
            Some(p) => Some(p),
            None => {
                let id = order[n - 1]@;
                if !line_ids().contains(id) {
                    Some("invalid template line id: "@ + id)
                } else if exists|j: int| 0 <= j < n - 1 && #[trigger] order[j]@ == id {
                    Some("duplicate template line id: "@ + id)
                } else {
                    None
                }
            },
        }
    }
}

/// The first problem with a template's entries among the first `n` line ids: a missing entry
/// or an entry whose id is not its key.
pub open spec fn lines_problem(lines: Seq<(String, NotificationTemplateLineConfigDto)>, n: int) -> Option<Seq<char>>
    decreases n,
{
    if n <= 0 {
        None
    } else {
        match lines_problem(lines, n - 1) {
            Some(p) => Some(p),
            None => {
                let id = line_ids()[n - 1];
                match entry_for(lines, id) {
                    None => Some("missing template line config: "@ + id),
                    Some(l) => if l.id@ != id {
                        Some("template line id mismatch for "@ + id)
                    } else {
                        None
                    },
                }
            },
        }
    }
}

/// What normalising a template fails with, if it does.
pub open spec fn template_problem(config: NotificationTemplateConfigDto) -> Option<Seq<char>> {
    if config.order@.len() != 6 {
        Some("notification template order must contain 6 lines"@)
    } else {
        match order_problem(config.order@, 6) {
            Some(p) => Some(p),
            None => lines_problem(config.lines@, 6),
        }
    }
}


proof fn lemma_order_problem_stays(order: Seq<String>, n: int, m: int)
    requires
        0 <= n <= m,
        order_problem(order, n) is Some,
    ensures
        order_problem(order, m) == order_problem(order, n),
    decreases m - n,
{
    if m > n {
        lemma_order_problem_stays(order, n, m - 1);
    }
}

proof fn lemma_lines_problem_stays(lines: Seq<(String, NotificationTemplateLineConfigDto)>, n: int, m: int)
    requires
        0 <= n <= m,
        lines_problem(lines, n) is Some,
    ensures
        lines_problem(lines, m) == lines_problem(lines, n),
    decreases m - n,
{
    if m > n {
        lemma_lines_problem_stays(lines, n, m - 1);
    }
}

fn find_entry(lines: &Vec<(String, NotificationTemplateLineConfigDto)>, id: &str) -> (res: Option<usize>)
    ensures
        match res {
            Some(k) => k < lines@.len() && entry_for(lines@, id@) == Some(lines@[k as int].1),
            None => entry_for(lines@, id@) is None,
        },
{
    let mut k: usize = 0;
    assert(lines@.skip(0) =~= lines@);
    while k < lines.len()
        invariant
            k <= lines@.len(),
            entry_for(lines@, id@) == entry_for(lines@.skip(k as int), id@),
        decreases lines.len() - k,
    {
        let ghost rest = lines@.skip(k as int);
        assert(rest.drop_first() =~= lines@.skip(k + 1));
        if str_eq(lines[k].0.as_str(), id) {
            return Some(k);
        }
        k = k + 1;
    }
    None
}

/// A template checked and rebuilt: its order must hold each line id once, and it must have
/// an entry for every line id whose id is its key. The result keeps the order and has one
/// entry per line id, in the default order, with the affixes of the template's entry.
pub fn normalize_template_config(config: NotificationTemplateConfigDto) -> (res: Result<NotificationTemplateConfigDto, AppError>)
    ensures
        match template_problem(config) {
            Some(p) => res matches Err(AppError::Message(m)) && m@ == p,
            None => res matches Ok(c) && c.order@ == config.order@ && lines_view(c.lines@) == line_ids().map_values(
                |id: Seq<char>| (id, (id, entry_for(config.lines@, id).unwrap().prefix@, entry_for(config.lines@, id).unwrap().suffix@)),
            ),
        },
{
    if config.order.len() != 6 {
        return Err(app_error("notification template order must contain 6 lines"));
    }
    let mut i: usize = 0;
    while i < config.order.len()
        invariant
            config.order@.len() == 6,
            i <= 6,
            order_problem(config.order@, i as int) is None,
        decreases 6 - i,
    {
        let id = &config.order[i];
        if !is_template_line_id(id.as_str()) {
            let m = concat("invalid template line id: ", id.as_str());
            proof {
                assert(order_problem(config.order@, i + 1) == Some(m@));
                lemma_order_problem_stays(config.order@, i + 1, 6);
            }
            return Err(AppError::Message(m));
        }
        let mut j: usize = 0;
        while j < i
            invariant
                i < config.order@.len(),
                config.order@.len() == 6,
                j <= i,
                *id == config.order@[i as int],
                line_ids().contains(id@),
                order_problem(config.order@, i as int) is None,
                forall|q: int| 0 <= q < j ==> #[trigger] config.order@[q]@ != id@,
            decreases i - j,
        {
            if str_eq(config.order[j].as_str(), id.as_str()) {
                assert(config.order@[j as int]@ == id@);
                let m = concat("duplicate template line id: ", id.as_str());
                proof {
                    assert(line_ids().contains(id@));
                    assert(order_problem(config.order@, i + 1) == Some(m@));
                    lemma_order_problem_stays(config.order@, i + 1, 6);
                }
                return Err(AppError::Message(m));
            }
            j = j + 1;
        }
        i = i + 1;
    }
    let mut lines: Vec<(String, NotificationTemplateLineConfigDto)> = Vec::new();
    let mut k: usize = 0;
    while k < 6
        invariant
            k <= 6,
            config.order@.len() == 6,
            order_problem(config.order@, 6) is None,
            lines_problem(config.lines@, k as int) is None,
            lines_view(lines@) == line_ids().take(k as int).map_values(
                |id: Seq<char>| (id, (id, entry_for(config.lines@, id).unwrap().prefix@, entry_for(config.lines@, id).unwrap().suffix@)),
            ),
        decreases 6 - k,
    {
        let id = template_line_id(k);
        let found = find_entry(&config.lines, id);
        let e = match found {
            Some(e) => e,
            None => {
                let m = concat("missing template line config: ", id);
                proof {
                    assert(lines_problem(config.lines@, k + 1) == Some(m@));
                    lemma_lines_problem_stays(config.lines@, k + 1, 6);
                }
                return Err(AppError::Message(m));
            },
        };
        let line = &config.lines[e].1;
        if !str_eq(line.id.as_str(), id) {
            let m = concat("template line id mismatch for ", id);
            proof {
                assert(lines_problem(config.lines@, k + 1) == Some(m@));
                lemma_lines_problem_stays(config.lines@, k + 1, 6);
            }
            return Err(AppError::Message(m));
        }
        let ghost l = lines@;
        let fresh = NotificationTemplateLineConfigDto { id: id.to_string(), prefix: line.prefix.clone(), suffix: line.suffix.clone() };
        lines.push((id.to_string(), fresh));
        proof {
            let f = |id: Seq<char>| (id, (id, entry_for(config.lines@, id).unwrap().prefix@, entry_for(config.lines@, id).unwrap().suffix@));
            assert(line_ids().take(k + 1) =~= line_ids().take(k as int).push(id@));
            assert(line_ids().take(k + 1).map_values(f) =~= line_ids().take(k as int).map_values(f).push(f(id@)));
            assert(lines_view(lines@) =~= lines_view(l).push(f(id@)));
        }
        k = k + 1;
    }
    assert(line_ids().take(6) =~= line_ids());
    Ok(NotificationTemplateConfigDto { order: config.order, lines })
}

/// The entry for the `i`-th of some distinct ids, in entries keyed by those ids in order.
proof fn lemma_entry_at(lines: Seq<(String, NotificationTemplateLineConfigDto)>, ids: Seq<Seq<char>>, i: int)
    requires
        lines.len() == ids.len(),
        0 <= i < ids.len(),
        forall|j: int| 0 <= j < lines.len() ==> (#[trigger] lines[j]).0@ == ids[j],
        forall|j: int| 0 <= j < i ==> #[trigger] ids[j] != ids[i],
    ensures
        entry_for(lines, ids[i]) == Some(lines[i].1),
    decreases i,
{
    if i > 0 {
        assert(lines[0].0@ == ids[0]);
        let rest = lines.drop_first();
        let rest_ids = ids.drop_first();
        assert forall|j: int| 0 <= j < rest.len() implies (#[trigger] rest[j]).0@ == rest_ids[j] by {
            assert(rest[j] == lines[j + 1]);
        }
        assert forall|j: int| 0 <= j < i - 1 implies #[trigger] rest_ids[j] != rest_ids[i - 1] by {
            assert(rest_ids[j] == ids[j + 1]);
        }
        lemma_entry_at(rest, rest_ids, i - 1);
    }
}

proof fn lemma_line_ids_distinct()
    ensures
        forall|i: int, j: int| 0 <= j < i < 6 ==> #[trigger] line_ids()[j] != #[trigger] line_ids()[i],
{
    reveal_strlit("header");
    reveal_strlit("player1");
    reveal_strlit("player2");
    reveal_strlit("player3");
    reveal_strlit("player4");
    reveal_strlit("battle");
    let ids = line_ids();
    assert(ids[0][0] == 'h' && ids[5][0] == 'b' && ids[1][0] == 'p');
    assert(ids[1][6] == '1' && ids[2][6] == '2' && ids[3][6] == '3' && ids[4][6] == '4');
    assert forall|i: int, j: int| 0 <= j < i < 6 implies #[trigger] line_ids()[j] != #[trigger] line_ids()[i] by {
        if line_ids()[j] == line_ids()[i] {
            assert(line_ids()[j][0] == line_ids()[i][0]);
            if 1 <= j {
                assert(line_ids()[j][6] == line_ids()[i][6]);
            }
        }
    }
}

/// Entries laid out as a normalised template lays them out (one per line id, in order, each
/// keyed and named by its id) raise no problem among the first `n` ids, and each id finds
/// its own entry.
proof fn lemma_normal_lines_ok(lines: Seq<(String, NotificationTemplateLineConfigDto)>, n: int)
    requires
        0 <= n <= 6,
        lines.len() == 6,
        forall|j: int| 0 <= j < 6 ==> (#[trigger] lines[j]).0@ == line_ids()[j] && lines[j].1.id@ == line_ids()[j],
    ensures
        lines_problem(lines, n) is None,
        forall|k: int| 0 <= k < 6 ==> entry_for(lines, #[trigger] line_ids()[k]) == Some(lines[k].1),
    decreases n,
{
    lemma_line_ids_distinct();
    assert forall|k: int| 0 <= k < 6 implies entry_for(lines, #[trigger] line_ids()[k]) == Some(lines[k].1) by {
        assert forall|j: int| 0 <= j < k implies #[trigger] line_ids()[j] != line_ids()[k] by {}
        lemma_entry_at(lines, line_ids(), k);
    }
    if n > 0 {
        lemma_normal_lines_ok(lines, n - 1);
        assert(entry_for(lines, line_ids()[n - 1]) == Some(lines[n - 1].1));
    }
}

/// Normalising a template that normalising gave back keeps it as it is: it raises no
/// problem, keeps its order, and gets the same entries. So a template that was saved reads
/// back unchanged.
pub proof fn law_normalized_template_is_stable(config: NotificationTemplateConfigDto, normalized: NotificationTemplateConfigDto)
    requires
        template_problem(config) is None,
        normalized.order@ == config.order@,
        lines_view(normalized.lines@) == line_ids().map_values(
            |id: Seq<char>| (id, (id, entry_for(config.lines@, id).unwrap().prefix@, entry_for(config.lines@, id).unwrap().suffix@)),
        ),
    ensures
        template_problem(normalized) is None,
        line_ids().map_values(
            |id: Seq<char>| (id, (id, entry_for(normalized.lines@, id).unwrap().prefix@, entry_for(normalized.lines@, id).unwrap().suffix@)),
        ) == lines_view(normalized.lines@),
{
    let lines = normalized.lines@;
    let v = lines_view(lines);
    assert(v.len() == 6);
    assert(lines.len() == 6);
    assert forall|j: int| 0 <= j < 6 implies (#[trigger] lines[j]).0@ == line_ids()[j] && lines[j].1.id@ == line_ids()[j] by {
        assert(v[j] == (lines[j].0@, line_view(lines[j].1)));
    }
    lemma_normal_lines_ok(lines, 6);
    assert(order_problem(normalized.order@, 6) == order_problem(config.order@, 6));
    let again = line_ids().map_values(
        |id: Seq<char>| (id, (id, entry_for(lines, id).unwrap().prefix@, entry_for(lines, id).unwrap().suffix@)),
    );
    assert forall|k: int| 0 <= k < 6 implies #[trigger] again[k] == v[k] by {
        assert(entry_for(lines, line_ids()[k]) == Some(lines[k].1));
        assert(v[k] == (lines[k].0@, line_view(lines[k].1)));
    }
    assert(again =~= v);
}

// ----- rendering -------------------------------------------------------------------------

/// The value of a line (the first one with that key).
pub open spec fn value_for(values: Seq<(Seq<char>, Seq<char>)>, id: Seq<char>) -> Option<Seq<char>>
    decreases values.len(),
{
    if values.len() == 0 {
        None
    } else if values[0].0 == id {
        Some(values[0].1)
    } else {
        value_for(values.drop_first(), id)
    }
}

pub open spec fn pairs_view(values: Seq<(String, String)>) -> Seq<(Seq<char>, Seq<char>)> {
    values.map_values(|e: (String, String)| (e.0@, e.1@))
}

/// The rendered lines for the first `n` ids of the order: each line that has an entry and a
/// value which is neither blank nor "-", with its prefix and suffix.
pub open spec fn rendered_lines(config: NotificationTemplateConfigDto, values: Seq<(Seq<char>, Seq<char>)>, n: int) -> Seq<Seq<char>>
    decreases n,
{
    if n <= 0 {
        Seq::empty()
    } else {
        let prev = rendered_lines(config, values, n - 1);
        let id = config.order@[n - 1]@;
        match (entry_for(config.lines@, id), value_for(values, id)) {
            (Some(line), Some(content)) => if trim_seq(content).len() == 0 || trim_seq(content) == "-"@ {
                prev
            } else {
                prev.push(line.prefix@ + content + line.suffix@)
            },
            _ => prev,
        }
    }
}

/// Lines joined by line breaks.
pub open spec fn joined(lines: Seq<Seq<char>>) -> Seq<char>
    decreases lines.len(),
{
    if lines.len() == 0 {
        Seq::empty()
    } else if lines.len() == 1 {
        lines[0]
    } else {
        joined(lines.drop_last()) + "\n"@ + lines.last()
    }
}

fn find_value(values: &Vec<(String, String)>, id: &str) -> (res: Option<usize>)
    ensures
        match res {
            Some(k) => k < values@.len() && value_for(pairs_view(values@), id@) == Some(values@[k as int].1@),
            None => value_for(pairs_view(values@), id@) is None,
        },
{
    let mut k: usize = 0;
    assert(values@.skip(0) =~= values@);
    while k < values.len()
        invariant
            k <= values@.len(),
            value_for(pairs_view(values@), id@) == value_for(pairs_view(values@.skip(k as int)), id@),
        decreases values.len() - k,
    {
        let ghost rest = values@.skip(k as int);
        assert(rest.drop_first() =~= values@.skip(k + 1));
        assert(pairs_view(rest).drop_first() =~= pairs_view(values@.skip(k + 1)));
        if str_eq(values[k].0.as_str(), id) {
            return Some(k);
        }
        k = k + 1;
    }
    None
}

/// Joins lines with line breaks.
pub fn join_lines(lines: &Vec<String>) -> (res: String)
    ensures
        res@ == joined(lines@.map_values(|s: String| s@)),
{
    let mut out = String::new();
    let mut i: usize = 0;
    while i < lines.len()
        invariant
            i <= lines@.len(),
            out@ == joined(lines@.map_values(|s: String| s@).take(i as int)),
        decreases lines.len() - i,
    {
        let ghost t = lines@.map_values(|s: String| s@).take(i + 1);
        assert(t.drop_last() =~= lines@.map_values(|s: String| s@).take(i as int));
        if i == 0 {
            out = lines[0].clone();
        } else {
            let with_break = concat(out.as_str(), "\n");
            out = concat(with_break.as_str(), lines[i].as_str());
        }
        i = i + 1;
    }
    assert(lines@.map_values(|s: String| s@).take(lines@.len() as int) =~= lines@.map_values(|s: String| s@));
    out
}

/// The message of a template filled with line values (see `rendered_lines`), one line per
/// line break.
pub fn render_template_message(template_config: &NotificationTemplateConfigDto, line_values: &Vec<(String, String)>) -> (res: String)
    ensures
        res@ == joined(rendered_lines(*template_config, pairs_view(line_values@), template_config.order@.len() as int)),
{
    let mut out: Vec<String> = Vec::new();
    let mut i: usize = 0;
    while i < template_config.order.len()
        invariant
            i <= template_config.order@.len(),
            out@.map_values(|s: String| s@) == rendered_lines(*template_config, pairs_view(line_values@), i as int),
        decreases template_config.order.len() - i,
    {
        let id = template_config.order[i].as_str();
        let entry = find_entry(&template_config.lines, id);
        let value = find_value(line_values, id);
        match (entry, value) {
            (Some(e), Some(v)) => {
                let content = &line_values[v].1;
                let t = trim(content.as_str());
                if !(t.as_str().is_empty() || str_eq(t.as_str(), "-")) {
                    let line = &template_config.lines[e].1;
                    let head = concat(line.prefix.as_str(), content.as_str());
                    let full = concat(head.as_str(), line.suffix.as_str());
                    let ghost o = out@;
                    out.push(full);
                    proof {
                        assert(out@.map_values(|s: String| s@) =~= o.map_values(|s: String| s@).push(full@));
                    }
                }
            },
            _ => {},
        }
        i = i + 1;
    }
    join_lines(&out)
}

// ----- a match as a message --------------------------------------------------------------

/// The name shown for a player: the nickname snapshot unless it is blank, else the name.
pub open spec fn display_name_spec(p: MatchPlayerDto) -> Seq<char> {
    match p.display_nickname_snapshot {
        Some(n) => if trim_seq(n@).len() > 0 {
            n@
        } else {
            p.pubg_player_name@
        },
        None => p.pubg_player_name@,
    }
}

pub fn display_player_name(player: &MatchPlayerDto) -> (res: String)
    ensures
        res@ == display_name_spec(*player),
{
    match &player.display_nickname_snapshot {
        Some(n) => {
            let t = trim(n.as_str());
            if t.as_str().is_empty() {
                player.pubg_player_name.clone()
            } else {
                n.clone()
            }
        },
        None => player.pubg_player_name.clone(),
    }
}

/// The index of the enabled player with the most (or fewest) points among the first `n`,
/// ties to the smaller id and then to the earlier one; -1 when none is enabled.
pub open spec fn extreme_index(ps: Seq<MatchPlayerDto>, highest: bool, n: int) -> int
    decreases n,
{
    if n <= 0 {
        -1
    } else {
        let r = extreme_index(ps, highest, n - 1);
        let p = ps[n - 1];
        if !p.is_points_enabled_snapshot {
            r
        } else if r < 0 {
            n - 1
        } else if beats(p.points, p.id, ps[r].points, ps[r].id, highest) {
            n - 1
        } else {
            r
        }
    }
}

pub open spec fn enabled_players(ps: Seq<MatchPlayerDto>, n: int) -> int
    decreases n,
{
    if n <= 0 {
        0
    } else {
        enabled_players(ps, n - 1) + if ps[n - 1].is_points_enabled_snapshot {
            1int
        } else {
            0int
        }
    }
}

/// The points of any two enabled players differ by no more than `i64` holds.
pub open spec fn points_gap_fits(ps: Seq<MatchPlayerDto>) -> bool {
    forall|i: int, j: int|
        0 <= i < ps.len() && 0 <= j < ps.len() && ps[i].is_points_enabled_snapshot && ps[j].is_points_enabled_snapshot
            ==> (#[trigger] ps[i]).points - (#[trigger] ps[j]).points <= i64::MAX
}

/// Whether the points of any two enabled players differ by no more than `i64` holds (what
/// the battle line and the messages ask of their players).
pub fn players_points_gap_fits(players: &Vec<MatchPlayerDto>) -> (res: bool)
    ensures
        res == points_gap_fits(players@),
{
    let mut hi: Option<usize> = None;
    let mut lo: Option<usize> = None;
    let mut i: usize = 0;
    while i < players.len()
        invariant
            i <= players@.len(),
            hi is Some <==> lo is Some,
            hi is None ==> forall|k: int| 0 <= k < i ==> !(#[trigger] players@[k]).is_points_enabled_snapshot,
            match hi {
                Some(h) => h < i && players@[h as int].is_points_enabled_snapshot
                    && forall|k: int| 0 <= k < i && (#[trigger] players@[k]).is_points_enabled_snapshot ==> players@[k].points <= players@[h as int].points,
                None => true,
            },
            match lo {
                Some(l) => l < i && players@[l as int].is_points_enabled_snapshot
                    && forall|k: int| 0 <= k < i && (#[trigger] players@[k]).is_points_enabled_snapshot ==> players@[l as int].points <= players@[k].points,
                None => true,
            },
        decreases players.len() - i,
    {
        if players[i].is_points_enabled_snapshot {
            match hi {
                None => {
                    hi = Some(i);
                    lo = Some(i);
                },
                Some(h) => {
                    if players[i].points > players[h].points {
                        hi = Some(i);
                    }
                    let l = lo.unwrap();
                    if players[i].points < players[l].points {
                        lo = Some(i);
                    }
                },
            }
        }
        i = i + 1;
    }
    match (hi, lo) {
        (Some(h), Some(l)) => {
            let gap: i128 = players[h].points as i128 - players[l].points as i128;
            if gap <= i64::MAX as i128 {
                proof {
                    assert forall|a: int, b: int|
                        0 <= a < players@.len() && 0 <= b < players@.len() && players@[a].is_points_enabled_snapshot
                            && players@[b].is_points_enabled_snapshot implies (#[trigger] players@[a]).points
                        - (#[trigger] players@[b]).points <= i64::MAX by {
                        assert(players@[a].points <= players@[h as int].points);
                        assert(players@[l as int].points <= players@[b].points);
                    }
                }
                true
            } else {
                proof {
                    assert(players@[h as int].points - players@[l as int].points > i64::MAX);
                }
                false
            }
        },
        _ => true,
    }
}

/// The battle line of a match: "无对战结果" with fewer than two enabled players, "无人胜出"
/// when the highest and the lowest are level, else the lowest, an arrow, the highest and the
/// gap.
pub open spec fn battle_summary_spec(ps: Seq<MatchPlayerDto>) -> Seq<char> {
    if enabled_players(ps, ps.len() as int) < 2 {
        "无对战结果"@
    } else {
        let hi = ps[extreme_index(ps, true, ps.len() as int)];
        let lo = ps[extreme_index(ps, false, ps.len() as int)];
        let gap = hi.points - lo.points;
        if gap == 0 {
            "无人胜出"@
        } else {
            display_name_spec(lo) + " → "@ + display_name_spec(hi) + " "@ + int_to_decimal(gap) + " 分"@
        }
    }
}

proof fn lemma_extreme_index(ps: Seq<MatchPlayerDto>, highest: bool, n: int)
    requires
        0 <= n <= ps.len(),
    ensures
        -1 <= extreme_index(ps, highest, n) < n,
        extreme_index(ps, highest, n) >= 0 ==> ps[extreme_index(ps, highest, n)].is_points_enabled_snapshot,
        (extreme_index(ps, highest, n) < 0) == (enabled_players(ps, n) == 0),
        enabled_players(ps, n) >= 0,
    decreases n,
{
    if n > 0 {
        lemma_extreme_index(ps, highest, n - 1);
    }
}

pub fn render_battle_summary(players: &Vec<MatchPlayerDto>) -> (res: String)
    requires
        points_gap_fits(players@),
    ensures
        res@ == battle_summary_spec(players@),
{
    let mut hi: Option<usize> = None;
    let mut lo: Option<usize> = None;
    let mut count: usize = 0;
    let mut i: usize = 0;
    while i < players.len()
        invariant
            i <= players@.len(),
            count <= i,
            count == enabled_players(players@, i as int),
            match hi {
                Some(h) => h as int == extreme_index(players@, true, i as int),
                None => extreme_index(players@, true, i as int) == -1,
            },
            match lo {
                Some(l) => l as int == extreme_index(players@, false, i as int),
                None => extreme_index(players@, false, i as int) == -1,
            },
        decreases players.len() - i,
    {
        proof {
            lemma_extreme_index(players@, true, i as int);
            lemma_extreme_index(players@, false, i as int);
        }
        let p = &players[i];
        if p.is_points_enabled_snapshot {
            count = count + 1;
            hi = match hi {
                None => Some(i),
                Some(h) => if p.points > players[h].points || (p.points == players[h].points && p.id < players[h].id) {
                    Some(i)
                } else {
                    Some(h)
                },
            };
            lo = match lo {
                None => Some(i),
                Some(l) => if p.points < players[l].points || (p.points == players[l].points && p.id < players[l].id) {
                    Some(i)
                } else {
                    Some(l)
                },
            };
        }
        i = i + 1;
    }
    proof {
        lemma_extreme_index(players@, true, players@.len() as int);
        lemma_extreme_index(players@, false, players@.len() as int);
    }
    if count < 2 {
        return "无对战结果".to_string();
    }
    let h = match hi {
        Some(h) => h,
        None => 0,
    };
    let l = match lo {
        Some(l) => l,
        None => 0,
    };
    let highest = &players[h];
    let lowest = &players[l];
    assert(highest.points - lowest.points <= i64::MAX);
    assert(highest.points - lowest.points >= 0) by {
        lemma_extreme_ge(players@, players@.len() as int, l as int);
    }
    let gap = highest.points - lowest.points;
    if gap == 0 {
        return "无人胜出".to_string();
    }
    let low_name = display_player_name(lowest);
    let high_name = display_player_name(highest);
    let a = concat(low_name.as_str(), " → ");
    let b = concat(a.as_str(), high_name.as_str());
    let c = concat(b.as_str(), " ");
    let gap_text = i64_to_string(gap);
    let d = concat(c.as_str(), gap_text.as_str());
    concat(d.as_str(), " 分")
}

/// The highest enabled total is at least that of every enabled player.
proof fn lemma_extreme_ge(ps: Seq<MatchPlayerDto>, n: int, k: int)
    requires
        0 <= k < n <= ps.len(),
        ps[k].is_points_enabled_snapshot,
    ensures
        extreme_index(ps, true, n) >= 0,
        ps[extreme_index(ps, true, n)].points >= ps[k].points,
    decreases n,
{
    lemma_extreme_index(ps, true, n);
    if k < n - 1 {
        lemma_extreme_ge(ps, n - 1, k);
    }
}

pub open spec fn in_team(p: MatchPlayerDto, team_id: Option<i64>) -> bool {
    match team_id {
        Some(t) => p.team_id == Some(t),
        None => true,
    }
}

/// The indices of the players of the team (all players when no team is given).
pub open spec fn team_indices(ps: Seq<MatchPlayerDto>, team_id: Option<i64>, n: int) -> Seq<usize>
    decreases n,
{
    if n <= 0 {
        Seq::empty()
    } else {
        let prev = team_indices(ps, team_id, n - 1);
        if in_team(ps[n - 1], team_id) {
            prev.push((n - 1) as usize)
        } else {
            prev
        }
    }
}

/// The account's own player first, then by points, kills, assists and damage, all
/// descending; ties keep the stored order.
pub open spec fn line_order(ps: Seq<MatchPlayerDto>) -> spec_fn(usize) -> Seq<KeyV> {
    |i: usize| {
        let p = ps[i as int];
        seq![
            KeyV::Int(if p.is_self { -1int } else { 0int }),
            KeyV::Int(-p.points),
            KeyV::Int(-p.kills),
            KeyV::Int(-p.assists),
            KeyV::Int(-p.damage),
            KeyV::Int(i as int),
        ]
    }
}

/// Damage in whole hit points, the fraction cut off.
pub open spec fn whole_damage(d: i64) -> int {
    if d >= 0 {
        d / 1000
    } else {
        -((-d) / 1000)
    }
}

/// "name：k杀 / d伤 / r救 / p分".
pub open spec fn player_line(p: MatchPlayerDto) -> Seq<char> {
    display_name_spec(p) + "："@ + int_to_decimal(p.kills as int) + "杀 / "@ + int_to_decimal(whole_damage(p.damage))
        + "伤 / "@ + int_to_decimal(p.revives as int) + "救 / "@ + int_to_decimal(p.points as int) + "分"@
}

/// A player is shown by its display nickname snapshot when it has one that is not blank, and
/// by its PUBG name otherwise; its player line starts with that name, and so does the battle
/// line when the player is the lowest of a battle that has a winner.
pub proof fn law_nickname_is_shown(p: MatchPlayerDto, ps: Seq<MatchPlayerDto>)
    ensures
        p.display_nickname_snapshot matches Some(n) ==> (trim_seq(n@).len() > 0 ==> display_name_spec(p) == n@),
        p.display_nickname_snapshot matches Some(n) ==> (trim_seq(n@).len() == 0 ==> display_name_spec(p) == p.pubg_player_name@),
        p.display_nickname_snapshot is None ==> display_name_spec(p) == p.pubg_player_name@,
        player_line(p).subrange(0, display_name_spec(p).len() as int) == display_name_spec(p),
        ({
            let lo = ps[extreme_index(ps, false, ps.len() as int)];
            let hi = ps[extreme_index(ps, true, ps.len() as int)];
            enabled_players(ps, ps.len() as int) >= 2 && hi.points != lo.points ==> battle_summary_spec(ps).subrange(
                0,
                display_name_spec(lo).len() as int,
            ) == display_name_spec(lo)
        }),
{
    let d = display_name_spec(p);
    assert(player_line(p).subrange(0, d.len() as int) =~= d);
    let lo = ps[extreme_index(ps, false, ps.len() as int)];
    let dl = display_name_spec(lo);
    let hi = ps[extreme_index(ps, true, ps.len() as int)];
    if enabled_players(ps, ps.len() as int) >= 2 && hi.points != lo.points {
        let rest = " → "@ + display_name_spec(hi) + " "@ + int_to_decimal(hi.points - lo.points) + " 分"@;
        assert(battle_summary_spec(ps) =~= dl + rest);
        assert(battle_summary_spec(ps).subrange(0, dl.len() as int) =~= dl);
    }
}

/// The four player lines of a message: the team's players ranked by `line_order`, the first
/// four of them as lines, blank lines for the rest.
pub open spec fn player_lines_ok(ps: Seq<MatchPlayerDto>, team_id: Option<i64>, lines: Seq<Seq<char>>) -> bool {
    exists|s: Seq<usize>|
        {
            &&& #[trigger] s.to_multiset() == team_indices(ps, team_id, ps.len() as int).to_multiset()
            &&& sorted_by(s, line_order(ps))
            &&& lines.len() == 4
            &&& forall|k: int| 0 <= k < 4 ==> #[trigger] lines[k] == if k < s.len() {
                player_line(ps[s[k] as int])
            } else {
                Seq::<char>::empty()
            }
        }
}

fn player_line_of(p: &MatchPlayerDto) -> (res: String)
    ensures
        res@ == player_line(*p),
{
    let name = display_player_name(p);
    let whole: i64 = if p.damage >= 0 {
        p.damage / 1000
    } else {
        let w: i128 = -((-(p.damage as i128)) / 1000);
        w as i64
    };
    let a = concat(name.as_str(), "：");
    let b = concat(a.as_str(), i64_to_string(p.kills).as_str());
    let c = concat(b.as_str(), "杀 / ");
    let d = concat(c.as_str(), i64_to_string(whole).as_str());
    let e = concat(d.as_str(), "伤 / ");
    let f = concat(e.as_str(), i64_to_string(p.revives).as_str());
    let g = concat(f.as_str(), "救 / ");
    let h = concat(g.as_str(), i64_to_string(p.points).as_str());
    concat(h.as_str(), "分")
}

pub fn build_player_lines(players: &Vec<MatchPlayerDto>, team_id: Option<i64>) -> (res: Vec<String>)
    ensures
        player_lines_ok(players@, team_id, res@.map_values(|s: String| s@)),
{
    let ghost ps = players@;
    let mut items: Vec<usize> = Vec::new();
    let mut keys: Vec<Vec<KeyPart>> = Vec::new();
    let mut i: usize = 0;
    while i < players.len()
        invariant
            i <= players@.len(),
            ps == players@,
            items@ == team_indices(ps, team_id, i as int),
            items@.len() == keys@.len(),
            forall|k: int| 0 <= k < items@.len() ==> (#[trigger] items@[k]) < i,
            forall|k: int| 0 <= k < items@.len() ==> key_view(#[trigger] keys@[k]@) == line_order(ps)(items@[k]),
        decreases players.len() - i,
    {
        let p = &players[i];
        let member = match team_id {
            Some(t) => p.team_id == Some(t),
            None => true,
        };
        if member {
            let mut key: Vec<KeyPart> = Vec::new();
            key.push(KeyPart::Int(if p.is_self { -1 } else { 0 }));
            key.push(KeyPart::Int(-(p.points as i128)));
            key.push(KeyPart::Int(-(p.kills as i128)));
            key.push(KeyPart::Int(-(p.assists as i128)));
            key.push(KeyPart::Int(-(p.damage as i128)));
            key.push(KeyPart::Int(i as i128));
            proof {
                assert(key_view(key@) =~= line_order(ps)(i));
            }
            items.push(i);
            keys.push(key);
        }
        i = i + 1;
    }
    let ghost built = items@;
    let sorted = sort_by_keys(items, keys, Ghost(line_order(ps)));
    proof {
        assert forall|q: int| 0 <= q < sorted@.len() implies (#[trigger] sorted@[q]) < players@.len() by {
            let x = sorted@[q];
            assert(sorted@.contains(x));
            assert(sorted@.to_multiset().count(x) > 0);
            assert(built.to_multiset().count(x) > 0);
            assert(built.contains(x));
            let j = choose|j: int| 0 <= j < built.len() && built[j] == x;
            assert(built[j] < players@.len());
        }
    }
    let mut lines: Vec<String> = Vec::new();
    let mut k: usize = 0;
    while k < 4
        invariant
            k <= 4,
            ps == players@,
            sorted@.len() == built.len(),
            forall|q: int| 0 <= q < sorted@.len() ==> (#[trigger] sorted@[q]) < players@.len(),
            lines@.len() == k,
            forall|q: int| 0 <= q < k ==> #[trigger] lines@[q]@ == if q < sorted@.len() {
                player_line(ps[sorted@[q] as int])
            } else {
                Seq::<char>::empty()
            },
        decreases 4 - k,
    {
        if k < sorted.len() {
            lines.push(player_line_of(&players[sorted[k]]));
        } else {
            lines.push(String::new());
        }
        k = k + 1;
    }
    proof {
        let lv = lines@.map_values(|s: String| s@);
        assert(forall|q: int| 0 <= q < 4 ==> #[trigger] lv[q] == lines@[q]@);
        assert(sorted@.to_multiset() == team_indices(ps, team_id, ps.len() as int).to_multiset());
    }
    lines
}

/// A time read as RFC 3339, moved to the fixed offset of `offset_seconds` east of UTC and
/// written with the strftime-style `format`; none when the offset is not one chrono holds,
/// the time does not parse, or the format cannot be written.
pub uninterp spec fn rfc3339_formatted(value: Seq<char>, offset_seconds: i32, format: Seq<char>) -> Option<Seq<char>>;

/// `chrono::FixedOffset::east_opt`, `chrono::DateTime::parse_from_rfc3339`, `with_timezone`
/// and `format`, written into a `String`. None comes back when the offset is refused, the
/// time does not parse, or writing the format fails (a format chrono cannot write); no call
/// panics. The text is only named.
#[verifier::external_body]
fn format_rfc3339_at(value: &str, offset_seconds: i32, format: &str) -> (res: Option<String>)
    ensures
        text_of(res) == rfc3339_formatted(value@, offset_seconds, format@),
{
    let zone = chrono::FixedOffset::east_opt(offset_seconds)?;
    let date = chrono::DateTime::parse_from_rfc3339(value).ok()?;
    let mut out = String::new();
    write!(out, "{}", date.with_timezone(&zone).format(format)).ok()?;
    Some(out)
}

/// The offset of the times in a notification: UTC+8, in seconds.
pub const MATCH_TIME_OFFSET_SECONDS: i32 = 28800;

/// How a notification writes a match time: month-day hour:minute.
pub const MATCH_TIME_FORMAT: &'static str = "%m-%d %H:%M";

/// What the match time shows as: an RFC 3339 time in UTC+8 as "MM-DD HH:MM", any other text
/// as it is.
pub open spec fn match_time_text(value: Seq<char>) -> Seq<char> {
    match rfc3339_formatted(value, MATCH_TIME_OFFSET_SECONDS, MATCH_TIME_FORMAT@) {
        Some(t) => t,
        None => value,
    }
}

/// The match time as a notification shows it (see `match_time_text`).
fn format_match_time(value: &str) -> (res: String)
    ensures
        res@ == match_time_text(value@),
{
    match format_rfc3339_at(value, MATCH_TIME_OFFSET_SECONDS, MATCH_TIME_FORMAT) {
        Some(t) => t,
        None => value.to_string(),
    }
}

/// The index of the account's own player, or -1.
pub open spec fn self_index(ps: Seq<MatchPlayerDto>, n: int) -> int
    decreases n,
{
    if n <= 0 {
        -1
    } else {
        let r = self_index(ps, n - 1);
        if r >= 0 {
            r
        } else if ps[n - 1].is_self {
            n - 1
        } else {
            -1
        }
    }
}

proof fn lemma_self_index(ps: Seq<MatchPlayerDto>, n: int)
    requires
        0 <= n <= ps.len(),
    ensures
        -1 <= self_index(ps, n) < n,
    decreases n,
{
    if n > 0 {
        lemma_self_index(ps, n - 1);
    }
}

fn find_self(players: &Vec<MatchPlayerDto>) -> (res: Option<usize>)
    ensures
        match res {
            Some(i) => i < players@.len() && self_index(players@, players@.len() as int) == i,
            None => self_index(players@, players@.len() as int) == -1,
        },
{
    let mut i: usize = 0;
    while i < players.len()
        invariant
            i <= players@.len(),
            self_index(players@, i as int) == -1,
        decreases players.len() - i,
    {
        if players[i].is_self {
            proof {
                lemma_self_index_stays(players@, i + 1, players@.len() as int);
            }
            return Some(i);
        }
        i = i + 1;
    }
    None
}

proof fn lemma_self_index_stays(ps: Seq<MatchPlayerDto>, n: int, m: int)
    requires
        0 <= n <= m,
        self_index(ps, n) >= 0,
    ensures
        self_index(ps, m) == self_index(ps, n),
    decreases m - n,
{
    if m > n {
        lemma_self_index_stays(ps, n, m - 1);
    }
}

/// The placement text: "第n名", or "名次未知" when unknown.
pub open spec fn placement_text(placement: Option<i64>) -> Seq<char> {
    match placement {
        Some(n) => "第"@ + int_to_decimal(n as int) + "名"@,
        None => "名次未知"@,
    }
}

/// The own player's placement and team (none when there is no own player).
pub open spec fn self_placement(ps: Seq<MatchPlayerDto>) -> Option<i64> {
    let k = self_index(ps, ps.len() as int);
    if k >= 0 {
        ps[k].placement
    } else {
        None
    }
}

pub open spec fn self_team(ps: Seq<MatchPlayerDto>) -> Option<i64> {
    let k = self_index(ps, ps.len() as int);
    if k >= 0 {
        ps[k].team_id
    } else {
        None
    }
}

/// The values of the message's lines.
pub open spec fn message_values(header: Seq<char>, lines: Seq<Seq<char>>, battle: Seq<char>) -> Seq<(Seq<char>, Seq<char>)> {
    seq![
        ("header"@, header),
        ("player1"@, lines[0]),
        ("player2"@, lines[1]),
        ("player3"@, lines[2]),
        ("player4"@, lines[3]),
        ("battle"@, battle),
    ]
}

/// The header line for a match time already formatted: the time, a full-width bar, the
/// placement.
pub open spec fn header_text(time_text: Seq<char>, ps: Seq<MatchPlayerDto>) -> Seq<char> {
    time_text + "｜"@ + placement_text(self_placement(ps))
}

/// The header line: the match time as shown, a full-width bar, the placement.
pub open spec fn header_line(played_at: Seq<char>, ps: Seq<MatchPlayerDto>) -> Seq<char> {
    header_text(match_time_text(played_at), ps)
}

fn pair(id: &str, value: String) -> (res: (String, String))
    ensures
        res.0@ == id@,
        res.1@ == value@,
{
    (id.to_string(), value)
}

/// A match as a message, for a match time already formatted (`time_text`): the header, the
/// four player lines of the own player's team and the battle line, filled into the template.
pub fn render_match_message_at(
    template_config: &NotificationTemplateConfigDto,
    time_text: &str,
    players: &Vec<MatchPlayerDto>,
    battle_summary: &str,
) -> (res: String)
    ensures
        exists|lines: Seq<Seq<char>>|
            {
                &&& #[trigger] player_lines_ok(players@, self_team(players@), lines)
                &&& res@ == joined(
                    rendered_lines(
                        *template_config,
                        message_values(header_text(time_text@, players@), lines, battle_summary@),
                        template_config.order@.len() as int,
                    ),
                )
            },
{
    let me = find_self(players);
    let (placement, team_id) = match me {
        Some(i) => (players[i].placement, players[i].team_id),
        None => (None, None),
    };
    let placement_str = match placement {
        Some(n) => {
            let a = concat("第", i64_to_string(n).as_str());
            concat(a.as_str(), "名")
        },
        None => "名次未知".to_string(),
    };
    let lines = build_player_lines(players, team_id);
    let h1 = concat(time_text, "｜");
    let header = concat(h1.as_str(), placement_str.as_str());
    let ghost lv = lines@.map_values(|s: String| s@);
    assert(lv.len() == 4);
    let mut values: Vec<(String, String)> = Vec::new();
    values.push(pair("header", header));
    values.push(pair("player1", lines[0].clone()));
    values.push(pair("player2", lines[1].clone()));
    values.push(pair("player3", lines[2].clone()));
    values.push(pair("player4", lines[3].clone()));
    values.push(pair("battle", battle_summary.to_string()));
    proof {
        assert(lv[0] == lines@[0]@);
        assert(lv[1] == lines@[1]@);
        assert(lv[2] == lines@[2]@);
        assert(lv[3] == lines@[3]@);
        assert(pairs_view(values@) =~= message_values(header_text(time_text@, players@), lv, battle_summary@));
    }
    render_template_message(template_config, &values)
}

/// A match as a message: the header (with the match time as shown), the four player lines
/// of the own player's team and the battle line, filled into the template.
pub fn render_match_message(
    template_config: &NotificationTemplateConfigDto,
    played_at: &str,
    players: &Vec<MatchPlayerDto>,
    battle_summary: &str,
) -> (res: String)
    ensures
        exists|lines: Seq<Seq<char>>|
            {
                &&& #[trigger] player_lines_ok(players@, self_team(players@), lines)
                &&& res@ == joined(
                    rendered_lines(
                        *template_config,
                        message_values(header_line(played_at@, players@), lines, battle_summary@),
                        template_config.order@.len() as int,
                    ),
                )
            },
{
    let time = format_match_time(played_at);
    render_match_message_at(template_config, time.as_str(), players, battle_summary)
}

/// The time a match notification shows: its end, else when it was played.
pub open spec fn notice_time(m: MatchDto) -> Seq<char> {
    match m.match_end_at {
        Some(e) => e@,
        None => m.played_at@,
    }
}

fn notice_time_of(m: &MatchDto) -> (res: String)
    ensures
        res@ == notice_time(*m),
{
    match &m.match_end_at {
        Some(e) => e.clone(),
        None => m.played_at.clone(),
    }
}

/// The notification task of a stored match: its message, and the time, placement and battle
/// line that preview it.
pub fn notification_task_input(
    match_id: &str,
    match_data: &MatchDto,
    players: &Vec<MatchPlayerDto>,
    template_config: &NotificationTemplateConfigDto,
) -> (res: CreateNotificationTaskInput)
    requires
        points_gap_fits(players@),
    ensures
        res.match_id@ == match_id@,
        res.preview_match_time@ == notice_time(*match_data),
        res.preview_placement == self_placement(players@),
        res.preview_battle_summary@ == battle_summary_spec(players@),
        exists|lines: Seq<Seq<char>>|
            {
                &&& #[trigger] player_lines_ok(players@, self_team(players@), lines)
                &&& res.message_body@ == joined(
                    rendered_lines(
                        *template_config,
                        message_values(header_line(notice_time(*match_data), players@), lines, battle_summary_spec(players@)),
                        template_config.order@.len() as int,
                    ),
                )
            },
{
    let me = find_self(players);
    let preview_placement = match me {
        Some(i) => players[i].placement,
        None => None,
    };
    let preview_match_time = notice_time_of(match_data);
    let preview_battle_summary = render_battle_summary(players);
    let message_body = render_match_message(template_config, preview_match_time.as_str(), players, preview_battle_summary.as_str());
    CreateNotificationTaskInput {
        match_id: match_id.to_string(),
        message_body,
        preview_match_time,
        preview_placement,
        preview_battle_summary,
    }
}

/// The message to resend for a task: rebuilt from the stored match with the current
/// template, or the stored message when the match or its players are gone.
pub fn rebuild_notification_message(
    match_data: Option<&MatchDto>,
    players: &Vec<MatchPlayerDto>,
    template_config: &NotificationTemplateConfigDto,
    fallback_message: &str,
) -> (res: String)
    requires
        points_gap_fits(players@),
    ensures
        (match_data is None || players@.len() == 0) ==> res@ == fallback_message@,
        match match_data {
            Some(m) => players@.len() > 0 ==> exists|lines: Seq<Seq<char>>|
                {
                    &&& #[trigger] player_lines_ok(players@, self_team(players@), lines)
                    &&& res@ == joined(
                        rendered_lines(
                            *template_config,
                            message_values(header_line(notice_time(*m), players@), lines, battle_summary_spec(players@)),
                            template_config.order@.len() as int,
                        ),
                    )
                },
            None => true,
        },
{
    let m = match match_data {
        Some(m) => m,
        None => {
            return fallback_message.to_string();
        },
    };
    if players.len() == 0 {
        return fallback_message.to_string();
    }
    let played_at = notice_time_of(m);
    let summary = render_battle_summary(players);
    render_match_message(template_config, played_at.as_str(), players, summary.as_str())
}

// ----- sending to the group --------------------------------------------------------------

pub const GROUP_ID_NOT_INTEGER: &'static str = "notification group id must be an integer";

/// The configured group id, trimmed, as an integer.
pub fn parse_group_id(text: &str) -> (res: Result<i64, AppError>)
    ensures
        match parse_i64_spec(trim_seq(text@)) {
            Some(v) => res == Ok::<i64, AppError>(v as i64),
            None => res matches Err(AppError::Message(m)) && m@ == GROUP_ID_NOT_INTEGER@,
        },
{
    let t = trim(text);
    match parse_i64(t.as_str()) {
        Some(v) => Ok(v),
        None => Err(app_error(GROUP_ID_NOT_INTEGER)),
    }
}

/// The token of the chat bot: the web UI's unless it is missing or blank, else the
/// configured one.
pub fn onebot_token(webui_token: Option<String>, configured_token: String) -> (res: String)
    ensures
        res@ == match webui_token {
            Some(t) => if trim_seq(t@).len() == 0 {
                configured_token@
            } else {
                t@
            },
            None => configured_token@,
        },
{
    match webui_token {
        Some(t) => {
            let trimmed = trim(t.as_str());
            if trimmed.as_str().is_empty() {
                configured_token
            } else {
                t
            }
        },
        None => configured_token,
    }
}

/// A text without its trailing slashes.
pub open spec fn strip_trailing_slashes(s: Seq<char>) -> Seq<char>
    decreases s.len(),
{
    if s.len() > 0 && s.last() == '/' {
        strip_trailing_slashes(s.drop_last())
    } else {
        s
    }
}

/// The address that sends a group message.
pub fn send_group_endpoint(one_bot_url: &str) -> (res: String)
    ensures
        res@ == strip_trailing_slashes(one_bot_url@) + "/send_group_msg"@,
{
    let v = chars_of(one_bot_url);
    let mut n: usize = v.len();
    assert(v@.take(n as int) =~= v@);
    while n > 0 && v[n - 1] == '/'
        invariant
            n <= v@.len(),
            v@ == one_bot_url@,
            strip_trailing_slashes(one_bot_url@) == strip_trailing_slashes(v@.take(n as int)),
        decreases n,
    {
        assert(v@.take(n as int).drop_last() =~= v@.take(n - 1));
        n = n - 1;
    }
    let kept = chars_range(&v, 0, n);
    assert(kept@ =~= v@.take(n as int));
    let base = string_from_chars(&kept);
    concat(base.as_str(), "/send_group_msg")
}

/// Whether the bot accepted a message: status "ok" (any case) or return code 0. Otherwise the
/// error is the reply's wording, else its message, else a generic one.
pub fn onebot_reply_outcome(
    status: Option<String>,
    retcode: Option<i64>,
    wording: Option<String>,
    message: Option<String>,
) -> (res: Result<(), AppError>)
    ensures
        res is Ok <==> ((status matches Some(s) && ascii_lower_seq(s@) == "ok"@) || retcode == Some(0i64)),
        res matches Err(AppError::Message(m)) ==> m@ == match wording {
            Some(w) => w@,
            None => match message {
                Some(x) => x@,
                None => "onebot send_group_msg failed"@,
            },
        },
{
    let ok_status = match &status {
        Some(s) => {
            let lower = to_ascii_lowercase(s.as_str());
            proof {
                reveal_strlit("ok");
            }
            let r = str_eq(lower.as_str(), "ok");
            r
        },
        None => false,
    };
    let zero = match retcode {
        Some(c) => c == 0,
        None => false,
    };
    if ok_status || zero {
        return Ok(());
    }
    match wording {
        Some(w) => Err(AppError::Message(w)),
        None => match message {
            Some(x) => Err(AppError::Message(x)),
            None => Err(app_error("onebot send_group_msg failed")),
        },
    }
}

} // verus!
