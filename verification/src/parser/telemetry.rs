//! Aggregation of PUBG match telemetry into per-player statistics and event logs.
//!
//! Damage values are thousandths of a hit point. Every record that the parser derives from
//! one event depends on that event alone; the per-player statistics are the result of
//! folding the events in order (see `state_after`).

use vstd::prelude::*;
use crate::engine::calculator::{saturate_i64, PlayerStats};
use crate::parser::damage_causers::{display_form, friendly_damage_causer_name, friendly_spec, lemma_table_names_settled};
use crate::sort::{key_view, lemma_map_multiset, lemma_stable_order_views, sort_by_keys, sorted_by, stable_order, KeyPart, KeyV};
use crate::text::{lemma_trim_idempotent, opt_text, str_eq, trim, trim_seq};

verus! {

#[derive(Debug, Clone)]
pub struct DamageInfo {
    pub damage_causer_name: Option<String>,
}

#[derive(Debug, Clone)]
pub struct PlayerIdentity {
    pub account_id: Option<String>,
    pub name: Option<String>,
}

#[derive(Debug, Clone)]
pub struct MatchCharacterStart {
    pub account_id: Option<String>,
    pub name: Option<String>,
    pub team_id: Option<i64>,
}

#[derive(Debug, Clone)]
pub struct MatchCharacterEnd {
    pub account_id: Option<String>,
    pub ranking: Option<i64>,
}

/// One telemetry event. `damage` is in thousandths.
#[derive(Debug, Clone)]
pub enum TelemetryEvent {
    MatchStart { event_at: Option<String>, characters: Vec<MatchCharacterStart> },
    PlayerTakeDamage {
        event_at: Option<String>,
        attacker: Option<PlayerIdentity>,
        victim: Option<PlayerIdentity>,
        damage: i64,
        damage_type_category: Option<String>,
        damage_causer_name: Option<String>,
    },
    PlayerKillV2 {
        event_at: Option<String>,
        killer: Option<PlayerIdentity>,
        victim: Option<PlayerIdentity>,
        finisher: Option<PlayerIdentity>,
        dbno_maker: Option<PlayerIdentity>,
        assists_account_ids: Vec<String>,
        damage_type_category: Option<String>,
        damage_causer_name: Option<String>,
        killer_damage_info: Option<DamageInfo>,
        finish_damage_info: Option<DamageInfo>,
    },
    PlayerMakeGroggy {
        event_at: Option<String>,
        attacker: Option<PlayerIdentity>,
        victim: Option<PlayerIdentity>,
        damage_type_category: Option<String>,
        damage_causer_name: Option<String>,
    },
    PlayerRevive {
        event_at: Option<String>,
        reviver: Option<PlayerIdentity>,
        victim: Option<PlayerIdentity>,
    },
    MatchEnd { event_at: Option<String>, characters: Vec<MatchCharacterEnd> },
    Other,
}

// ----- normalization ---------------------------------------------------------------------

/// A trimmed text, or `None` when it is absent or blank.
pub open spec fn norm_text(o: Option<Seq<char>>) -> Option<Seq<char>> {
    match o {
        Some(v) => if trim_seq(v).len() == 0 {
            None
        } else {
            Some(trim_seq(v))
        },
        None => None,
    }
}

/// A trimmed player name, or the account id when the name is absent or blank.
pub open spec fn norm_name(o: Option<Seq<char>>, fallback: Seq<char>) -> Seq<char> {
    let t = trim_seq(
        match o {
            Some(v) => v,
            None => Seq::empty(),
        },
    );
    if t.len() == 0 {
        fallback
    } else {
        t
    }
}

/// The display name of a damage causer: the official display name when there is one, else
/// the trimmed raw name, else the trimmed fallback (the damage category), else `Unknown`.
pub open spec fn display_causer_spec(causer: Option<Seq<char>>, fallback: Option<Seq<char>>) -> Seq<
    char,
> {
    match norm_text(causer) {
        Some(v) => match friendly_spec(v) {
            Some(d) => d,
            None => v,
        },
        None => match norm_text(fallback) {
            Some(f) => f,
            None => "Unknown"@,
        },
    }
}

pub open spec fn first_some(a: Option<Seq<char>>, b: Option<Seq<char>>) -> Option<Seq<char>> {
    match a {
        Some(x) => Some(x),
        None => b,
    }
}

pub open spec fn ident_id(p: Option<PlayerIdentity>) -> Option<Seq<char>> {
    match p {
        Some(i) => norm_text(opt_text(i.account_id)),
        None => None,
    }
}

pub open spec fn ident_name(p: Option<PlayerIdentity>) -> Option<Seq<char>> {
    match p {
        Some(i) => opt_text(i.name),
        None => None,
    }
}

pub open spec fn info_name(p: Option<DamageInfo>) -> Option<Seq<char>> {
    match p {
        Some(i) => opt_text(i.damage_causer_name),
        None => None,
    }
}

/// The name recorded for an identity: present exactly when its account id is.
pub open spec fn named(id: Option<Seq<char>>, raw: Option<Seq<char>>) -> Option<Seq<char>> {
    match id {
        Some(a) => Some(norm_name(raw, a)),
        None => None,
    }
}

/// The first account id of the list that is not blank, trimmed.
pub open spec fn first_norm_id(ids: Seq<String>) -> Option<Seq<char>>
    decreases ids.len(),
{
    if ids.len() == 0 {
        None
    } else {
        match norm_text(Some(ids[0]@)) {
            Some(x) => Some(x),
            None => first_norm_id(ids.drop_first()),
        }
    }
}

fn normalized_text(value: &Option<String>) -> (res: Option<String>)
    ensures
        opt_text(res) == norm_text(opt_text(*value)),
{
    match value {
        Some(v) => {
            let t = trim(v.as_str());
            if t.as_str().is_empty() {
                None
            } else {
                Some(t)
            }
        },
        None => None,
    }
}

/// `normalized_account_id`: the trimmed id, or `None` when absent or blank.
pub fn normalized_account_id(value: &Option<String>) -> (res: Option<String>)
    ensures
        opt_text(res) == norm_text(opt_text(*value)),
{
    normalized_text(value)
}

/// `normalized_timestamp`: the trimmed timestamp, or `None` when absent or blank.
pub fn normalized_timestamp(value: &Option<String>) -> (res: Option<String>)
    ensures
        opt_text(res) == norm_text(opt_text(*value)),
{
    normalized_text(value)
}

/// `normalized_player_name`: the trimmed name, or the account id when absent or blank.
pub fn normalized_player_name(value: &Option<String>, fallback_account_id: &String) -> (res: String)
    ensures
        res@ == norm_name(opt_text(*value), fallback_account_id@),
{
    let t = match value {
        Some(v) => trim(v.as_str()),
        None => {
            let e = String::new();
            proof {
                assert(trim_seq(Seq::<char>::empty()) =~= Seq::<char>::empty());
            }
            e
        },
    };
    if t.as_str().is_empty() {
        fallback_account_id.clone()
    } else {
        t
    }
}

/// The display name of a damage causer (see `display_causer_spec`).
pub fn display_damage_causer_name(damage_causer_name: &Option<String>, fallback: &Option<String>) -> (res:
    String)
    ensures
        res@ == display_causer_spec(opt_text(*damage_causer_name), opt_text(*fallback)),
{
    match normalized_text(damage_causer_name) {
        Some(value) => match friendly_damage_causer_name(value.as_str()) {
            Some(d) => d,
            None => value,
        },
        None => match normalized_text(fallback) {
            Some(f) => f,
            None => "Unknown".to_owned(),
        },
    }
}

/// The name to store in place of a stored damage causer name (with the category that was
/// stored beside it): its display name, when that differs from what is stored; none when the
/// stored name already reads as it should.
pub fn causer_name_rewrite(stored: &String, category: &Option<String>) -> (res: Option<String>)
    ensures
        res is None <==> display_causer_spec(Some(stored@), opt_text(*category)) == stored@,
        res matches Some(n) ==> n@ == display_causer_spec(Some(stored@), opt_text(*category)),
{
    let display = display_damage_causer_name(&Some(stored.clone()), category);
    if str_eq(display.as_str(), stored.as_str()) {
        None
    } else {
        Some(display)
    }
}

/// A display name shows as itself: showing again what `display_causer_spec` gave, with any
/// category, gives the same name. This holds unless the causer is blank and the category
/// it falls back to is itself a known raw name that shows differently.
pub proof fn law_display_names_are_settled(causer: Option<Seq<char>>, fallback: Option<Seq<char>>, other: Option<Seq<char>>)
    requires
        norm_text(causer) is None ==> match norm_text(fallback) {
            Some(f) => friendly_spec(f) is None || friendly_spec(f) == Some(f),
            None => true,
        },
    ensures
        display_causer_spec(Some(display_causer_spec(causer, fallback)), other) == display_causer_spec(causer, fallback),
{
    reveal(display_form);
    let d = display_causer_spec(causer, fallback);
    match norm_text(causer) {
        Some(v) => {
            lemma_table_names_settled(v);
            let c = causer.unwrap();
            lemma_trim_idempotent(c);
            assert(norm_text(Some(d)) == Some(d));
        },
        None => {
            lemma_table_names_settled("Unknown"@);
            match norm_text(fallback) {
                Some(f) => {
                    lemma_trim_idempotent(fallback.unwrap());
                    assert(norm_text(Some(d)) == Some(d));
                },
                None => {
                    assert(norm_text(Some(d)) == Some(d));
                },
            }
        },
    }
}

/// Rewriting stored causer names settles at once: after a name was rewritten to what
/// `causer_name_rewrite` gave, a second run finds it already in display form and leaves it
/// (see `causer_name_rewrite`'s contract). This holds unless the stored name is blank and its
/// category is itself a known raw name that shows differently.
pub proof fn law_causer_rewrite_settles(stored: Seq<char>, category: Option<Seq<char>>)
    requires
        trim_seq(stored).len() == 0 ==> match norm_text(category) {
            Some(f) => friendly_spec(f) is None || friendly_spec(f) == Some(f),
            None => true,
        },
    ensures
        ({
            let once = display_causer_spec(Some(stored), category);
            display_causer_spec(Some(once), category) == once
        }),
{
    law_display_names_are_settled(Some(stored), category, category);
}

/// Damage in thousandths rounded to one decimal place, halves away from zero.
pub open spec fn round_damage_spec(v: i64) -> i64 {
    if v >= 0 {
        saturate_i64((v + 50) / 100 * 100)
    } else {
        saturate_i64(-((-v + 50) / 100 * 100))
    }
}

/// `round_damage`: one decimal place, halves away from zero (thousandths in and out).
pub fn round_damage(value: i64) -> (res: i64)
    ensures
        res == round_damage_spec(value),
{
    let v = value as i128;
    let r: i128 = if v >= 0 {
        (v + 50) / 100 * 100
    } else {
        -((-v + 50) / 100 * 100)
    };
    if r > i64::MAX as i128 {
        i64::MAX
    } else if r < i64::MIN as i128 {
        i64::MIN
    } else {
        r as i64
    }
}


// ----- per-event records -----------------------------------------------------------------

#[derive(Debug, Clone)]
pub struct TelemetryDamageEvent {
    pub attacker_account_id: Option<String>,
    pub attacker_name: Option<String>,
    pub victim_account_id: Option<String>,
    pub victim_name: Option<String>,
    /// Damage in thousandths, rounded to one decimal place.
    pub damage: i64,
    pub damage_type_category: Option<String>,
    pub damage_causer_name: Option<String>,
    pub event_at: Option<String>,
}

#[derive(Debug, Clone)]
pub struct TelemetryKillEvent {
    pub killer_account_id: Option<String>,
    pub killer_name: Option<String>,
    pub victim_account_id: Option<String>,
    pub victim_name: Option<String>,
    pub assistant_account_id: Option<String>,
    pub damage_type_category: Option<String>,
    pub damage_causer_name: Option<String>,
    pub event_at: Option<String>,
}

#[derive(Debug, Clone)]
pub struct TelemetryKnockEvent {
    pub attacker_account_id: Option<String>,
    pub attacker_name: Option<String>,
    pub victim_account_id: Option<String>,
    pub victim_name: Option<String>,
    pub damage_type_category: Option<String>,
    pub damage_causer_name: Option<String>,
    pub event_at: Option<String>,
}

#[derive(Debug, Clone)]
pub struct TelemetryReviveEvent {
    pub reviver_account_id: Option<String>,
    pub reviver_name: Option<String>,
    pub victim_account_id: Option<String>,
    pub victim_name: Option<String>,
    pub event_at: Option<String>,
}

/// The texts of a damage, kill or knock record, field by field; the numeric field is the
/// damage (zero for kills and knocks).
pub struct EventRecordV {
    pub actor_account_id: Option<Seq<char>>,
    pub actor_name: Option<Seq<char>>,
    pub victim_account_id: Option<Seq<char>>,
    pub victim_name: Option<Seq<char>>,
    pub assistant_account_id: Option<Seq<char>>,
    pub damage: i64,
    pub damage_type_category: Option<Seq<char>>,
    pub damage_causer_name: Option<Seq<char>>,
    pub event_at: Option<Seq<char>>,
}

impl TelemetryDamageEvent {
    pub open spec fn record(&self) -> EventRecordV {
        EventRecordV {
            actor_account_id: opt_text(self.attacker_account_id),
            actor_name: opt_text(self.attacker_name),
            victim_account_id: opt_text(self.victim_account_id),
            victim_name: opt_text(self.victim_name),
            assistant_account_id: None,
            damage: self.damage,
            damage_type_category: opt_text(self.damage_type_category),
            damage_causer_name: opt_text(self.damage_causer_name),
            event_at: opt_text(self.event_at),
        }
    }
}

impl TelemetryKillEvent {
    pub open spec fn record(&self) -> EventRecordV {
        EventRecordV {
            actor_account_id: opt_text(self.killer_account_id),
            actor_name: opt_text(self.killer_name),
            victim_account_id: opt_text(self.victim_account_id),
            victim_name: opt_text(self.victim_name),
            assistant_account_id: opt_text(self.assistant_account_id),
            damage: 0,
            damage_type_category: opt_text(self.damage_type_category),
            damage_causer_name: opt_text(self.damage_causer_name),
            event_at: opt_text(self.event_at),
        }
    }
}

impl TelemetryKnockEvent {
    pub open spec fn record(&self) -> EventRecordV {
        EventRecordV {
            actor_account_id: opt_text(self.attacker_account_id),
            actor_name: opt_text(self.attacker_name),
            victim_account_id: opt_text(self.victim_account_id),
            victim_name: opt_text(self.victim_name),
            assistant_account_id: None,
            damage: 0,
            damage_type_category: opt_text(self.damage_type_category),
            damage_causer_name: opt_text(self.damage_causer_name),
            event_at: opt_text(self.event_at),
        }
    }
}

impl TelemetryReviveEvent {
    pub open spec fn record(&self) -> EventRecordV {
        EventRecordV {
            actor_account_id: opt_text(self.reviver_account_id),
            actor_name: opt_text(self.reviver_name),
            victim_account_id: opt_text(self.victim_account_id),
            victim_name: opt_text(self.victim_name),
            assistant_account_id: None,
            damage: 0,
            damage_type_category: None,
            damage_causer_name: None,
            event_at: opt_text(self.event_at),
        }
    }
}

/// The damage record of a `PlayerTakeDamage` event.
pub open spec fn damage_record_of(e: TelemetryEvent) -> EventRecordV {
    match e {
        TelemetryEvent::PlayerTakeDamage {
            event_at,
            attacker,
            victim,
            damage,
            damage_type_category,
            damage_causer_name,
        } => EventRecordV {
            actor_account_id: ident_id(attacker),
            actor_name: named(ident_id(attacker), ident_name(attacker)),
            victim_account_id: ident_id(victim),
            victim_name: named(ident_id(victim), ident_name(victim)),
            assistant_account_id: None,
            damage: round_damage_spec(damage),
            damage_type_category: norm_text(opt_text(damage_type_category)),
            damage_causer_name: Some(
                display_causer_spec(opt_text(damage_causer_name), opt_text(damage_type_category)),
            ),
            event_at: norm_text(opt_text(event_at)),
        },
        _ => arbitrary(),
    }
}

/// The killer of a `PlayerKillV2` event: the killer, else the player who knocked the victim
/// down, else the finisher (the first of them with an account id).
pub open spec fn killer_id_of(killer: Option<PlayerIdentity>, dbno_maker: Option<PlayerIdentity>, finisher: Option<PlayerIdentity>) -> Option<Seq<char>> {
    first_some(ident_id(killer), first_some(ident_id(dbno_maker), ident_id(finisher)))
}

pub open spec fn killer_raw_name_of(killer: Option<PlayerIdentity>, dbno_maker: Option<PlayerIdentity>, finisher: Option<PlayerIdentity>) -> Option<Seq<char>> {
    first_some(ident_name(killer), first_some(ident_name(dbno_maker), ident_name(finisher)))
}

/// The kill record of a `PlayerKillV2` event.
pub open spec fn kill_record_of(e: TelemetryEvent) -> EventRecordV {
    match e {
        TelemetryEvent::PlayerKillV2 {
            event_at,
            killer,
            victim,
            finisher,
            dbno_maker,
            assists_account_ids,
            damage_type_category,
            damage_causer_name,
            killer_damage_info,
            finish_damage_info,
        } => EventRecordV {
            actor_account_id: killer_id_of(killer, dbno_maker, finisher),
            actor_name: named(killer_id_of(killer, dbno_maker, finisher), killer_raw_name_of(killer, dbno_maker, finisher)),
            victim_account_id: ident_id(victim),
            victim_name: named(ident_id(victim), ident_name(victim)),
            assistant_account_id: first_norm_id(assists_account_ids@),
            damage: 0,
            damage_type_category: norm_text(opt_text(damage_type_category)),
            damage_causer_name: Some(
                display_causer_spec(
                    first_some(info_name(finish_damage_info), first_some(info_name(killer_damage_info), opt_text(damage_causer_name))),
                    opt_text(damage_type_category),
                ),
            ),
            event_at: norm_text(opt_text(event_at)),
        },
        _ => arbitrary(),
    }
}

/// The knock record of a `PlayerMakeGroggy` event.
pub open spec fn knock_record_of(e: TelemetryEvent) -> EventRecordV {
    match e {
        TelemetryEvent::PlayerMakeGroggy {
            event_at,
            attacker,
            victim,
            damage_type_category,
            damage_causer_name,
        } => EventRecordV {
            actor_account_id: ident_id(attacker),
            actor_name: named(ident_id(attacker), ident_name(attacker)),
            victim_account_id: ident_id(victim),
            victim_name: named(ident_id(victim), ident_name(victim)),
            assistant_account_id: None,
            damage: 0,
            damage_type_category: norm_text(opt_text(damage_type_category)),
            damage_causer_name: Some(
                display_causer_spec(opt_text(damage_causer_name), opt_text(damage_type_category)),
            ),
            event_at: norm_text(opt_text(event_at)),
        },
        _ => arbitrary(),
    }
}

/// The revive record of a `PlayerRevive` event.
pub open spec fn revive_record_of(e: TelemetryEvent) -> EventRecordV {
    match e {
        TelemetryEvent::PlayerRevive { event_at, reviver, victim } => EventRecordV {
            actor_account_id: ident_id(reviver),
            actor_name: named(ident_id(reviver), ident_name(reviver)),
            victim_account_id: ident_id(victim),
            victim_name: named(ident_id(victim), ident_name(victim)),
            assistant_account_id: None,
            damage: 0,
            damage_type_category: None,
            damage_causer_name: None,
            event_at: norm_text(opt_text(event_at)),
        },
        _ => arbitrary(),
    }
}

/// One record per damage event, in event order.
pub open spec fn damage_records(events: Seq<TelemetryEvent>) -> Seq<EventRecordV>
    decreases events.len(),
{
    if events.len() == 0 {
        Seq::empty()
    } else {
        let rest = damage_records(events.drop_last());
        if events.last() is PlayerTakeDamage {
            rest.push(damage_record_of(events.last()))
        } else {
            rest
        }
    }
}

/// One record per kill event, in event order.
pub open spec fn kill_records(events: Seq<TelemetryEvent>) -> Seq<EventRecordV>
    decreases events.len(),
{
    if events.len() == 0 {
        Seq::empty()
    } else {
        let rest = kill_records(events.drop_last());
        if events.last() is PlayerKillV2 {
            rest.push(kill_record_of(events.last()))
        } else {
            rest
        }
    }
}

/// One record per knock event, in event order.
pub open spec fn knock_records(events: Seq<TelemetryEvent>) -> Seq<EventRecordV>
    decreases events.len(),
{
    if events.len() == 0 {
        Seq::empty()
    } else {
        let rest = knock_records(events.drop_last());
        if events.last() is PlayerMakeGroggy {
            rest.push(knock_record_of(events.last()))
        } else {
            rest
        }
    }
}

/// One record per revive event, in event order.
pub open spec fn revive_records(events: Seq<TelemetryEvent>) -> Seq<EventRecordV>
    decreases events.len(),
{
    if events.len() == 0 {
        Seq::empty()
    } else {
        let rest = revive_records(events.drop_last());
        if events.last() is PlayerRevive {
            rest.push(revive_record_of(events.last()))
        } else {
            rest
        }
    }
}

fn clone_opt(o: &Option<String>) -> (res: Option<String>)
    ensures
        opt_text(res) == opt_text(*o),
{
    match o {
        Some(s) => Some(s.clone()),
        None => None,
    }
}

fn identity_id(p: &Option<PlayerIdentity>) -> (res: Option<String>)
    ensures
        opt_text(res) == ident_id(*p),
{
    match p {
        Some(i) => normalized_account_id(&i.account_id),
        None => None,
    }
}

fn identity_name(p: &Option<PlayerIdentity>) -> (res: Option<String>)
    ensures
        opt_text(res) == ident_name(*p),
{
    match p {
        Some(i) => clone_opt(&i.name),
        None => None,
    }
}

fn damage_info_name(p: &Option<DamageInfo>) -> (res: Option<String>)
    ensures
        opt_text(res) == info_name(*p),
{
    match p {
        Some(i) => clone_opt(&i.damage_causer_name),
        None => None,
    }
}

fn or_text(a: Option<String>, b: Option<String>) -> (res: Option<String>)
    ensures
        opt_text(res) == first_some(opt_text(a), opt_text(b)),
{
    match a {
        Some(x) => Some(x),
        None => b,
    }
}

fn named_for(id: &Option<String>, raw: &Option<String>) -> (res: Option<String>)
    ensures
        opt_text(res) == named(opt_text(*id), opt_text(*raw)),
{
    match id {
        Some(a) => Some(normalized_player_name(raw, a)),
        None => None,
    }
}

fn first_normalized_id(ids: &Vec<String>) -> (res: Option<String>)
    ensures
        opt_text(res) == first_norm_id(ids@),
{
    let mut i: usize = 0;
    assert(ids@.skip(0) =~= ids@);
    while i < ids.len()
        invariant
            i <= ids@.len(),
            first_norm_id(ids@) == first_norm_id(ids@.skip(i as int)),
        decreases ids.len() - i,
    {
        let c = normalized_account_id(&Some(ids[i].clone()));
        proof {
            assert(ids@.skip(i as int)[0] == ids@[i as int]);
            assert(ids@.skip(i as int).drop_first() =~= ids@.skip(i + 1));
        }
        if c.is_some() {
            return c;
        }
        i = i + 1;
    }
    assert(ids@.skip(i as int) =~= Seq::<String>::empty());
    None
}

fn damage_record(e: &TelemetryEvent) -> (res: TelemetryDamageEvent)
    requires
        e is PlayerTakeDamage,
    ensures
        res.record() == damage_record_of(*e),
{
    match e {
        TelemetryEvent::PlayerTakeDamage {
            event_at,
            attacker,
            victim,
            damage,
            damage_type_category,
            damage_causer_name,
        } => {
            let attacker_account_id = identity_id(attacker);
            let victim_account_id = identity_id(victim);
            let attacker_name = named_for(&attacker_account_id, &identity_name(attacker));
            let victim_name = named_for(&victim_account_id, &identity_name(victim));
            TelemetryDamageEvent {
                attacker_account_id,
                attacker_name,
                victim_account_id,
                victim_name,
                damage: round_damage(*damage),
                damage_type_category: normalized_text(damage_type_category),
                damage_causer_name: Some(display_damage_causer_name(damage_causer_name, damage_type_category)),
                event_at: normalized_timestamp(event_at),
            }
        },
        _ => {
            proof {
                assert(false);
            }
            arbitrary_damage_event()
        },
    }
}

fn kill_record(e: &TelemetryEvent) -> (res: TelemetryKillEvent)
    requires
        e is PlayerKillV2,
    ensures
        res.record() == kill_record_of(*e),
{
    match e {
        TelemetryEvent::PlayerKillV2 {
            event_at,
            killer,
            victim,
            finisher,
            dbno_maker,
            assists_account_ids,
            damage_type_category,
            damage_causer_name,
            killer_damage_info,
            finish_damage_info,
        } => {
            let killer_account_id = or_text(identity_id(killer), or_text(identity_id(dbno_maker), identity_id(finisher)));
            let raw_name = or_text(identity_name(killer), or_text(identity_name(dbno_maker), identity_name(finisher)));
            let victim_account_id = identity_id(victim);
            let killer_name = named_for(&killer_account_id, &raw_name);
            let victim_name = named_for(&victim_account_id, &identity_name(victim));
            let source = or_text(damage_info_name(finish_damage_info), or_text(damage_info_name(killer_damage_info), clone_opt(damage_causer_name)));
            TelemetryKillEvent {
                killer_account_id,
                killer_name,
                victim_account_id,
                victim_name,
                assistant_account_id: first_normalized_id(assists_account_ids),
                damage_type_category: normalized_text(damage_type_category),
                damage_causer_name: Some(display_damage_causer_name(&source, damage_type_category)),
                event_at: normalized_timestamp(event_at),
            }
        },
        _ => {
            proof {
                assert(false);
            }
            arbitrary_kill_event()
        },
    }
}

fn knock_record(e: &TelemetryEvent) -> (res: TelemetryKnockEvent)
    requires
        e is PlayerMakeGroggy,
    ensures
        res.record() == knock_record_of(*e),
{
    match e {
        TelemetryEvent::PlayerMakeGroggy {
            event_at,
            attacker,
            victim,
            damage_type_category,
            damage_causer_name,
        } => {
            let attacker_account_id = identity_id(attacker);
            let victim_account_id = identity_id(victim);
            let attacker_name = named_for(&attacker_account_id, &identity_name(attacker));
            let victim_name = named_for(&victim_account_id, &identity_name(victim));
            TelemetryKnockEvent {
                attacker_account_id,
                attacker_name,
                victim_account_id,
                victim_name,
                damage_type_category: normalized_text(damage_type_category),
                damage_causer_name: Some(display_damage_causer_name(damage_causer_name, damage_type_category)),
                event_at: normalized_timestamp(event_at),
            }
        },
        _ => {
            proof {
                assert(false);
            }
            TelemetryKnockEvent {
                attacker_account_id: None,
                attacker_name: None,
                victim_account_id: None,
                victim_name: None,
                damage_type_category: None,
                damage_causer_name: None,
                event_at: None,
            }
        },
    }
}

fn revive_record(e: &TelemetryEvent) -> (res: TelemetryReviveEvent)
    requires
        e is PlayerRevive,
    ensures
        res.record() == revive_record_of(*e),
{
    match e {
        TelemetryEvent::PlayerRevive { event_at, reviver, victim } => {
            let reviver_account_id = identity_id(reviver);
            let victim_account_id = identity_id(victim);
            let reviver_name = named_for(&reviver_account_id, &identity_name(reviver));
            let victim_name = named_for(&victim_account_id, &identity_name(victim));
            TelemetryReviveEvent {
                reviver_account_id,
                reviver_name,
                victim_account_id,
                victim_name,
                event_at: normalized_timestamp(event_at),
            }
        },
        _ => {
            proof {
                assert(false);
            }
            TelemetryReviveEvent {
                reviver_account_id: None,
                reviver_name: None,
                victim_account_id: None,
                victim_name: None,
                event_at: None,
            }
        },
    }
}

/// The blank damage record: no attacker, no victim, no damage, no category, causer or time.
fn arbitrary_damage_event() -> (res: TelemetryDamageEvent)
    ensures
        res.attacker_account_id is None,
        res.attacker_name is None,
        res.victim_account_id is None,
        res.victim_name is None,
        res.damage == 0,
        res.damage_type_category is None,
        res.damage_causer_name is None,
        res.event_at is None,
{
    TelemetryDamageEvent {
        attacker_account_id: None,
        attacker_name: None,
        victim_account_id: None,
        victim_name: None,
        damage: 0,
        damage_type_category: None,
        damage_causer_name: None,
        event_at: None,
    }
}

/// The blank kill record: no killer, victim or assistant, no category, causer or time.
fn arbitrary_kill_event() -> (res: TelemetryKillEvent)
    ensures
        res.killer_account_id is None,
        res.killer_name is None,
        res.victim_account_id is None,
        res.victim_name is None,
        res.assistant_account_id is None,
        res.damage_type_category is None,
        res.damage_causer_name is None,
        res.event_at is None,
{
    TelemetryKillEvent {
        killer_account_id: None,
        killer_name: None,
        victim_account_id: None,
        victim_name: None,
        assistant_account_id: None,
        damage_type_category: None,
        damage_causer_name: None,
        event_at: None,
    }
}


// ----- the statistics fold ---------------------------------------------------------------

/// Index of the first element satisfying `p`, or -1.
pub open spec fn first_where<T>(s: Seq<T>, p: spec_fn(T) -> bool) -> int
    decreases s.len(),
{
    if s.len() == 0 {
        -1
    } else if p(s[0]) {
        0
    } else {
        let r = first_where(s.drop_first(), p);
        if r < 0 {
            -1
        } else {
            r + 1
        }
    }
}

pub proof fn lemma_first_where<T>(s: Seq<T>, p: spec_fn(T) -> bool, k: int)
    requires
        0 <= k <= s.len(),
        forall|j: int| 0 <= j < k ==> !p(#[trigger] s[j]),
        k == s.len() || p(s[k]),
    ensures
        first_where(s, p) == if k == s.len() {
            -1
        } else {
            k
        },
    decreases s.len(),
{
    if s.len() > 0 && k > 0 {
        assert forall|j: int| 0 <= j < k - 1 implies !p(#[trigger] s.drop_first()[j]) by {
            assert(s.drop_first()[j] == s[j + 1]);
        }
        if k < s.len() {
            assert(s.drop_first()[k - 1] == s[k]);
        }
        lemma_first_where(s.drop_first(), p, k - 1);
    }
}

pub proof fn lemma_first_where_facts<T>(s: Seq<T>, p: spec_fn(T) -> bool)
    ensures
        -1 <= first_where(s, p) < s.len(),
        first_where(s, p) >= 0 ==> p(s[first_where(s, p)]),
        forall|j: int| 0 <= j < s.len() && (first_where(s, p) < 0 || j < first_where(s, p)) ==> !p(#[trigger] s[j]),
    decreases s.len(),
{
    if s.len() > 0 {
        lemma_first_where_facts(s.drop_first(), p);
        assert forall|j: int| 0 <= j < s.len() && (first_where(s, p) < 0 || j < first_where(s, p)) implies !p(#[trigger] s[j]) by {
            if j > 0 {
                assert(s[j] == s.drop_first()[j - 1]);
            }
        }
    }
}

pub proof fn lemma_first_where_push<T>(s: Seq<T>, p: spec_fn(T) -> bool, x: T)
    ensures
        first_where(s, p) >= 0 ==> first_where(s.push(x), p) == first_where(s, p),
        first_where(s, p) < 0 && p(x) ==> first_where(s.push(x), p) == s.len(),
{
    lemma_first_where_facts(s, p);
    let t = s.push(x);
    if first_where(s, p) >= 0 {
        let k = first_where(s, p);
        assert forall|j: int| 0 <= j < k implies !p(#[trigger] t[j]) by {
            assert(t[j] == s[j]);
        }
        lemma_first_where(t, p, k);
    } else if p(x) {
        assert forall|j: int| 0 <= j < s.len() implies !p(#[trigger] t[j]) by {
            assert(t[j] == s[j]);
        }
        lemma_first_where(t, p, s.len() as int);
    }
}

pub proof fn lemma_first_where_update<T>(s: Seq<T>, p: spec_fn(T) -> bool, i: int, x: T)
    requires
        0 <= i < s.len(),
        p(x) == p(s[i]),
    ensures
        first_where(s.update(i, x), p) == first_where(s, p),
{
    lemma_first_where_facts(s, p);
    let t = s.update(i, x);
    let k = if first_where(s, p) < 0 {
        s.len() as int
    } else {
        first_where(s, p)
    };
    assert forall|j: int| 0 <= j < k implies !p(#[trigger] t[j]) by {
        if j != i {
            assert(t[j] == s[j]);
        }
    }
    if k < s.len() && k != i {
        assert(t[k] == s[k]);
    }
    lemma_first_where(t, p, k);
}

/// A player's running totals. `damage` is in thousandths, unrounded.
pub struct AccV {
    pub account_id: Seq<char>,
    pub name: Seq<char>,
    pub team_id: Option<i64>,
    pub damage: i64,
    pub kills: i64,
    pub assists: i64,
    pub revives: i64,
    pub placement: Option<i64>,
}

/// A player's running damage with one weapon, in thousandths.
pub struct WeaponV {
    pub account_id: Seq<char>,
    pub player_name: Seq<char>,
    pub weapon_name: Seq<char>,
    pub total: i64,
}

/// The latest name seen for an account id.
pub struct NameV {
    pub account_id: Seq<char>,
    pub name: Seq<char>,
}

/// The parser's state: names seen, player totals and weapon totals, each in order of first
/// appearance.
pub struct StateV {
    pub names: Seq<NameV>,
    pub stats: Seq<AccV>,
    pub weapons: Seq<WeaponV>,
}

pub open spec fn sat_add(a: i64, b: i64) -> i64 {
    saturate_i64(a + b)
}

pub open spec fn name_key(id: Seq<char>) -> spec_fn(NameV) -> bool {
    |e: NameV| e.account_id == id
}

pub open spec fn acc_key(id: Seq<char>) -> spec_fn(AccV) -> bool {
    |a: AccV| a.account_id == id
}

pub open spec fn weapon_key(id: Seq<char>, weapon: Seq<char>) -> spec_fn(WeaponV) -> bool {
    |w: WeaponV| w.account_id == id && w.weapon_name == weapon
}

/// Records `name` as the latest name of `id`.
pub open spec fn upsert_name(names: Seq<NameV>, id: Seq<char>, name: Seq<char>) -> Seq<NameV> {
    let i = first_where(names, name_key(id));
    if i >= 0 {
        names.update(i, NameV { account_id: id, name })
    } else {
        names.push(NameV { account_id: id, name })
    }
}

pub open spec fn upsert_named(names: Seq<NameV>, id: Option<Seq<char>>, name: Option<Seq<char>>) -> Seq<NameV> {
    match (id, name) {
        (Some(a), Some(n)) => upsert_name(names, a, n),
        _ => names,
    }
}

/// The latest name seen for `id`, or `id` itself.
pub open spec fn lookup_name(names: Seq<NameV>, id: Seq<char>) -> Seq<char> {
    let i = first_where(names, name_key(id));
    if i >= 0 {
        names[i].name
    } else {
        id
    }
}

pub open spec fn new_acc(id: Seq<char>, name: Seq<char>, team_id: Option<i64>) -> AccV {
    AccV { account_id: id, name, team_id, damage: 0, kills: 0, assists: 0, revives: 0, placement: None }
}

/// The totals with an entry for `id` (a fresh one at the end when there was none).
pub open spec fn with_acc(stats: Seq<AccV>, id: Seq<char>, name: Seq<char>, team_id: Option<i64>) -> Seq<AccV> {
    if first_where(stats, acc_key(id)) >= 0 {
        stats
    } else {
        stats.push(new_acc(id, name, team_id))
    }
}

pub open spec fn add_counts(a: AccV, damage: i64, kills: i64, assists: i64, revives: i64) -> AccV {
    AccV {
        damage: sat_add(a.damage, damage),
        kills: sat_add(a.kills, kills),
        assists: sat_add(a.assists, assists),
        revives: sat_add(a.revives, revives),
        ..a
    }
}

/// Adds to the totals of `id`, creating its entry (named `name`, no team) when needed.
pub open spec fn bump(stats: Seq<AccV>, id: Seq<char>, name: Seq<char>, damage: i64, kills: i64, assists: i64, revives: i64) -> Seq<AccV> {
    let s1 = with_acc(stats, id, name, None);
    let i = first_where(s1, acc_key(id));
    s1.update(i, add_counts(s1[i], damage, kills, assists, revives))
}

/// Adds damage to the weapon total of (`id`, `weapon`).
pub open spec fn add_weapon_damage(ws: Seq<WeaponV>, id: Seq<char>, player_name: Seq<char>, weapon: Seq<char>, damage: i64) -> Seq<WeaponV> {
    let w1 = if first_where(ws, weapon_key(id, weapon)) >= 0 {
        ws
    } else {
        ws.push(WeaponV { account_id: id, player_name, weapon_name: weapon, total: 0 })
    };
    let j = first_where(w1, weapon_key(id, weapon));
    w1.update(j, WeaponV { total: sat_add(w1[j].total, damage), ..w1[j] })
}

/// A character listed at match start joins the totals with its team and name.
pub open spec fn start_char(st: StateV, c: MatchCharacterStart) -> StateV {
    match norm_text(opt_text(c.account_id)) {
        Some(id) => {
            let name = norm_name(opt_text(c.name), id);
            StateV {
                names: upsert_name(st.names, id, name),
                stats: with_acc(st.stats, id, name, c.team_id),
                weapons: st.weapons,
            }
        },
        None => st,
    }
}

pub open spec fn start_chars(st: StateV, cs: Seq<MatchCharacterStart>) -> StateV
    decreases cs.len(),
{
    if cs.len() == 0 {
        st
    } else {
        start_char(start_chars(st, cs.drop_last()), cs.last())
    }
}

pub open spec fn start_step(st: StateV, e: TelemetryEvent) -> StateV {
    match e {
        TelemetryEvent::MatchStart { characters, .. } => start_chars(st, characters@),
        _ => st,
    }
}

pub open spec fn empty_state() -> StateV {
    StateV { names: Seq::empty(), stats: Seq::empty(), weapons: Seq::empty() }
}

/// The first pass: every `MatchStart` event, in order.
pub open spec fn start_pass(events: Seq<TelemetryEvent>) -> StateV
    decreases events.len(),
{
    if events.len() == 0 {
        empty_state()
    } else {
        start_step(start_pass(events.drop_last()), events.last())
    }
}

/// Each assistant (blank ids skipped) gets one assist, under its latest known name.
pub open spec fn assist_fold(stats: Seq<AccV>, names: Seq<NameV>, ids: Seq<String>) -> Seq<AccV>
    decreases ids.len(),
{
    if ids.len() == 0 {
        stats
    } else {
        let s = assist_fold(stats, names, ids.drop_last());
        match norm_text(Some(ids.last()@)) {
            Some(x) => bump(s, x, lookup_name(names, x), 0, 0, 1, 0),
            None => s,
        }
    }
}

/// The final ranking of each listed player that already has totals.
pub open spec fn end_chars(stats: Seq<AccV>, cs: Seq<MatchCharacterEnd>) -> Seq<AccV>
    decreases cs.len(),
{
    if cs.len() == 0 {
        stats
    } else {
        let s = end_chars(stats, cs.drop_last());
        match norm_text(opt_text(cs.last().account_id)) {
            Some(x) => {
                let i = first_where(s, acc_key(x));
                if i >= 0 {
                    s.update(i, AccV { placement: cs.last().ranking, ..s[i] })
                } else {
                    s
                }
            },
            None => s,
        }
    }
}

/// The effect of one event on the state (second pass).
pub open spec fn event_step(st: StateV, e: TelemetryEvent) -> StateV {
    match e {
        TelemetryEvent::PlayerTakeDamage { attacker, victim, damage, damage_type_category, damage_causer_name, .. } => {
            let a = ident_id(attacker);
            let v = ident_id(victim);
            let an = named(a, ident_name(attacker));
            let vn = named(v, ident_name(victim));
            let names = upsert_named(upsert_named(st.names, a, an), v, vn);
            match (a, v) {
                (Some(aid), Some(vid)) => if vid != aid {
                    let weapon = display_causer_spec(opt_text(damage_causer_name), opt_text(damage_type_category));
                    StateV {
                        names,
                        stats: bump(st.stats, aid, an.unwrap(), damage, 0, 0, 0),
                        weapons: add_weapon_damage(st.weapons, aid, an.unwrap(), weapon, damage),
                    }
                } else {
                    StateV { names, ..st }
                },
                _ => StateV { names, ..st },
            }
        },
        TelemetryEvent::PlayerKillV2 { killer, victim, finisher, dbno_maker, assists_account_ids, .. } => {
            let k = killer_id_of(killer, dbno_maker, finisher);
            let v = ident_id(victim);
            let kn = named(k, killer_raw_name_of(killer, dbno_maker, finisher));
            let vn = named(v, ident_name(victim));
            let names = upsert_named(upsert_named(st.names, k, kn), v, vn);
            let s1 = match k {
                Some(kid) => bump(st.stats, kid, kn.unwrap(), 0, 1, 0, 0),
                None => st.stats,
            };
            StateV { names, stats: assist_fold(s1, names, assists_account_ids@), weapons: st.weapons }
        },
        TelemetryEvent::PlayerMakeGroggy { attacker, victim, .. } => {
            let a = ident_id(attacker);
            let v = ident_id(victim);
            let names = upsert_named(upsert_named(st.names, a, named(a, ident_name(attacker))), v, named(v, ident_name(victim)));
            StateV { names, ..st }
        },
        TelemetryEvent::PlayerRevive { reviver, victim, .. } => {
            let r = ident_id(reviver);
            let v = ident_id(victim);
            let rn = named(r, ident_name(reviver));
            let names = upsert_named(upsert_named(st.names, r, rn), v, named(v, ident_name(victim)));
            let stats = match r {
                Some(rid) => bump(st.stats, rid, rn.unwrap(), 0, 0, 0, 1),
                None => st.stats,
            };
            StateV { names, stats, weapons: st.weapons }
        },
        TelemetryEvent::MatchEnd { characters, .. } => StateV { stats: end_chars(st.stats, characters@), ..st },
        _ => st,
    }
}

pub open spec fn event_pass(events: Seq<TelemetryEvent>, st: StateV) -> StateV
    decreases events.len(),
{
    if events.len() == 0 {
        st
    } else {
        event_step(event_pass(events.drop_last(), st), events.last())
    }
}

/// The state after both passes over the events.
pub open spec fn state_after(events: Seq<TelemetryEvent>) -> StateV {
    event_pass(events, start_pass(events))
}


// ----- executable state ------------------------------------------------------------------

pub struct NameEntry {
    pub account_id: String,
    pub name: String,
}

pub struct StatsAccumulator {
    pub account_id: String,
    pub name: String,
    pub team_id: Option<i64>,
    pub damage: i64,
    pub kills: i64,
    pub assists: i64,
    pub revives: i64,
    pub placement: Option<i64>,
}

pub struct WeaponDamageAccumulator {
    pub pubg_account_id: String,
    pub pubg_player_name: String,
    pub weapon_name: String,
    pub total_damage: i64,
}

pub struct ParseState {
    pub names: Vec<NameEntry>,
    pub stats: Vec<StatsAccumulator>,
    pub weapons: Vec<WeaponDamageAccumulator>,
}

impl NameEntry {
    pub open spec fn view_name(&self) -> NameV {
        NameV { account_id: self.account_id@, name: self.name@ }
    }
}

impl StatsAccumulator {
    pub open spec fn view_acc(&self) -> AccV {
        AccV {
            account_id: self.account_id@,
            name: self.name@,
            team_id: self.team_id,
            damage: self.damage,
            kills: self.kills,
            assists: self.assists,
            revives: self.revives,
            placement: self.placement,
        }
    }
}

impl WeaponDamageAccumulator {
    pub open spec fn view_weapon(&self) -> WeaponV {
        WeaponV {
            account_id: self.pubg_account_id@,
            player_name: self.pubg_player_name@,
            weapon_name: self.weapon_name@,
            total: self.total_damage,
        }
    }
}

pub open spec fn names_view(v: Seq<NameEntry>) -> Seq<NameV> {
    v.map_values(|e: NameEntry| e.view_name())
}

pub open spec fn stats_view(v: Seq<StatsAccumulator>) -> Seq<AccV> {
    v.map_values(|e: StatsAccumulator| e.view_acc())
}

pub open spec fn weapons_view(v: Seq<WeaponDamageAccumulator>) -> Seq<WeaponV> {
    v.map_values(|e: WeaponDamageAccumulator| e.view_weapon())
}

impl ParseState {
    pub open spec fn view_state(&self) -> StateV {
        StateV { names: names_view(self.names@), stats: stats_view(self.stats@), weapons: weapons_view(self.weapons@) }
    }
}

fn saturating_add(a: i64, b: i64) -> (res: i64)
    ensures
        res == sat_add(a, b),
{
    let w = (a as i128) + (b as i128);
    if w > i64::MAX as i128 {
        i64::MAX
    } else if w < i64::MIN as i128 {
        i64::MIN
    } else {
        w as i64
    }
}

fn find_name(names: &Vec<NameEntry>, id: &String) -> (res: Option<usize>)
    ensures
        match res {
            Some(i) => i as int == first_where(names_view(names@), name_key(id@)) && i < names@.len(),
            None => first_where(names_view(names@), name_key(id@)) < 0,
        },
{
    let mut i: usize = 0;
    while i < names.len()
        invariant
            i <= names@.len(),
            forall|j: int| 0 <= j < i ==> !name_key(id@)(#[trigger] names_view(names@)[j]),
        decreases names.len() - i,
    {
        if names[i].account_id == *id {
            proof {
                lemma_first_where(names_view(names@), name_key(id@), i as int);
            }
            return Some(i);
        }
        i = i + 1;
    }
    proof {
        lemma_first_where(names_view(names@), name_key(id@), i as int);
    }
    None
}

fn upsert_name_exec(names: &mut Vec<NameEntry>, id: &String, name: &String)
    ensures
        names_view(final(names)@) == upsert_name(names_view(old(names)@), id@, name@),
{
    let entry = NameEntry { account_id: id.clone(), name: name.clone() };
    match find_name(names, id) {
        Some(i) => {
            names.set(i, entry);
            assert(names_view(names@) =~= upsert_name(names_view(old(names)@), id@, name@));
        },
        None => {
            names.push(entry);
            assert(names_view(names@) =~= upsert_name(names_view(old(names)@), id@, name@));
        },
    }
}

fn upsert_named_exec(names: &mut Vec<NameEntry>, id: &Option<String>, name: &Option<String>)
    ensures
        names_view(final(names)@) == upsert_named(names_view(old(names)@), opt_text(*id), opt_text(*name)),
{
    match (id, name) {
        (Some(a), Some(n)) => upsert_name_exec(names, a, n),
        _ => {},
    }
}

fn lookup_name_exec(names: &Vec<NameEntry>, id: &String) -> (res: String)
    ensures
        res@ == lookup_name(names_view(names@), id@),
{
    match find_name(names, id) {
        Some(i) => names[i].name.clone(),
        None => id.clone(),
    }
}

fn find_acc(stats: &Vec<StatsAccumulator>, id: &String) -> (res: Option<usize>)
    ensures
        match res {
            Some(i) => i as int == first_where(stats_view(stats@), acc_key(id@)) && i < stats@.len(),
            None => first_where(stats_view(stats@), acc_key(id@)) < 0,
        },
{
    let mut i: usize = 0;
    while i < stats.len()
        invariant
            i <= stats@.len(),
            forall|j: int| 0 <= j < i ==> !acc_key(id@)(#[trigger] stats_view(stats@)[j]),
        decreases stats.len() - i,
    {
        if stats[i].account_id == *id {
            proof {
                lemma_first_where(stats_view(stats@), acc_key(id@), i as int);
            }
            return Some(i);
        }
        i = i + 1;
    }
    proof {
        lemma_first_where(stats_view(stats@), acc_key(id@), i as int);
    }
    None
}

fn with_acc_exec(stats: &mut Vec<StatsAccumulator>, id: &String, name: &String, team_id: Option<i64>) -> (idx: usize)
    ensures
        stats_view(final(stats)@) == with_acc(stats_view(old(stats)@), id@, name@, team_id),
        idx as int == first_where(stats_view(final(stats)@), acc_key(id@)),
        idx < final(stats)@.len(),
{
    match find_acc(stats, id) {
        Some(i) => i,
        None => {
            let acc = StatsAccumulator {
                account_id: id.clone(),
                name: name.clone(),
                team_id,
                damage: 0,
                kills: 0,
                assists: 0,
                revives: 0,
                placement: None,
            };
            stats.push(acc);
            proof {
                assert(stats_view(stats@) =~= stats_view(old(stats)@).push(new_acc(id@, name@, team_id)));
                lemma_first_where_push(stats_view(old(stats)@), acc_key(id@), new_acc(id@, name@, team_id));
            }
            stats.len() - 1
        },
    }
}

fn add_counts_exec(stats: &mut Vec<StatsAccumulator>, idx: usize, damage: i64, kills: i64, assists: i64, revives: i64)
    requires
        idx < old(stats)@.len(),
    ensures
        stats_view(final(stats)@) == stats_view(old(stats)@).update(
            idx as int,
            add_counts(stats_view(old(stats)@)[idx as int], damage, kills, assists, revives),
        ),
{
    let a = &stats[idx];
    let updated = StatsAccumulator {
        account_id: a.account_id.clone(),
        name: a.name.clone(),
        team_id: a.team_id,
        damage: saturating_add(a.damage, damage),
        kills: saturating_add(a.kills, kills),
        assists: saturating_add(a.assists, assists),
        revives: saturating_add(a.revives, revives),
        placement: a.placement,
    };
    stats.set(idx, updated);
    assert(stats_view(stats@) =~= stats_view(old(stats)@).update(
        idx as int,
        add_counts(stats_view(old(stats)@)[idx as int], damage, kills, assists, revives),
    ));
}

fn bump_exec(stats: &mut Vec<StatsAccumulator>, id: &String, name: &String, damage: i64, kills: i64, assists: i64, revives: i64)
    ensures
        stats_view(final(stats)@) == bump(stats_view(old(stats)@), id@, name@, damage, kills, assists, revives),
{
    let idx = with_acc_exec(stats, id, name, None);
    add_counts_exec(stats, idx, damage, kills, assists, revives);
}

fn find_weapon(ws: &Vec<WeaponDamageAccumulator>, id: &String, weapon: &String) -> (res: Option<usize>)
    ensures
        match res {
            Some(i) => i as int == first_where(weapons_view(ws@), weapon_key(id@, weapon@)) && i < ws@.len(),
            None => first_where(weapons_view(ws@), weapon_key(id@, weapon@)) < 0,
        },
{
    let mut i: usize = 0;
    while i < ws.len()
        invariant
            i <= ws@.len(),
            forall|j: int| 0 <= j < i ==> !weapon_key(id@, weapon@)(#[trigger] weapons_view(ws@)[j]),
        decreases ws.len() - i,
    {
        if ws[i].pubg_account_id == *id && ws[i].weapon_name == *weapon {
            proof {
                lemma_first_where(weapons_view(ws@), weapon_key(id@, weapon@), i as int);
            }
            return Some(i);
        }
        i = i + 1;
    }
    proof {
        lemma_first_where(weapons_view(ws@), weapon_key(id@, weapon@), i as int);
    }
    None
}

fn add_weapon_damage_exec(ws: &mut Vec<WeaponDamageAccumulator>, id: &String, player_name: &String, weapon: &String, damage: i64)
    ensures
        weapons_view(final(ws)@) == add_weapon_damage(weapons_view(old(ws)@), id@, player_name@, weapon@, damage),
{
    let idx = match find_weapon(ws, id, weapon) {
        Some(i) => i,
        None => {
            let w = WeaponDamageAccumulator {
                pubg_account_id: id.clone(),
                pubg_player_name: player_name.clone(),
                weapon_name: weapon.clone(),
                total_damage: 0,
            };
            ws.push(w);
            proof {
                let nw = WeaponV { account_id: id@, player_name: player_name@, weapon_name: weapon@, total: 0 };
                assert(weapons_view(ws@) =~= weapons_view(old(ws)@).push(nw));
                lemma_first_where_push(weapons_view(old(ws)@), weapon_key(id@, weapon@), nw);
            }
            ws.len() - 1
        },
    };
    let ghost w1 = weapons_view(ws@);
    let a = &ws[idx];
    let updated = WeaponDamageAccumulator {
        pubg_account_id: a.pubg_account_id.clone(),
        pubg_player_name: a.pubg_player_name.clone(),
        weapon_name: a.weapon_name.clone(),
        total_damage: saturating_add(a.total_damage, damage),
    };
    ws.set(idx, updated);
    assert(weapons_view(ws@) =~= w1.update(idx as int, WeaponV { total: sat_add(w1[idx as int].total, damage), ..w1[idx as int] }));
}


fn start_char_exec(st: &mut ParseState, c: &MatchCharacterStart)
    ensures
        final(st).view_state() == start_char(old(st).view_state(), *c),
{
    match normalized_account_id(&c.account_id) {
        Some(id) => {
            let name = normalized_player_name(&c.name, &id);
            upsert_name_exec(&mut st.names, &id, &name);
            let _ = with_acc_exec(&mut st.stats, &id, &name, c.team_id);
        },
        None => {},
    }
}

fn start_step_exec(st: &mut ParseState, e: &TelemetryEvent)
    ensures
        final(st).view_state() == start_step(old(st).view_state(), *e),
{
    match e {
        TelemetryEvent::MatchStart { characters, .. } => {
            let mut i: usize = 0;
            while i < characters.len()
                invariant
                    i <= characters@.len(),
                    st.view_state() == start_chars(old(st).view_state(), characters@.take(i as int)),
                decreases characters.len() - i,
            {
                proof {
                    assert(characters@.take(i + 1).drop_last() =~= characters@.take(i as int));
                }
                start_char_exec(st, &characters[i]);
                i = i + 1;
            }
            assert(characters@.take(characters@.len() as int) =~= characters@);
        },
        _ => {},
    }
}

fn assist_exec(stats: &mut Vec<StatsAccumulator>, names: &Vec<NameEntry>, ids: &Vec<String>)
    ensures
        stats_view(final(stats)@) == assist_fold(stats_view(old(stats)@), names_view(names@), ids@),
{
    let mut i: usize = 0;
    while i < ids.len()
        invariant
            i <= ids@.len(),
            stats_view(stats@) == assist_fold(stats_view(old(stats)@), names_view(names@), ids@.take(i as int)),
        decreases ids.len() - i,
    {
        proof {
            assert(ids@.take(i + 1).drop_last() =~= ids@.take(i as int));
        }
        let normalized = normalized_account_id(&Some(ids[i].clone()));
        match normalized {
            Some(x) => {
                let name = lookup_name_exec(names, &x);
                bump_exec(stats, &x, &name, 0, 0, 1, 0);
            },
            None => {},
        }
        i = i + 1;
    }
    assert(ids@.take(ids@.len() as int) =~= ids@);
}

fn end_chars_exec(stats: &mut Vec<StatsAccumulator>, cs: &Vec<MatchCharacterEnd>)
    ensures
        stats_view(final(stats)@) == end_chars(stats_view(old(stats)@), cs@),
{
    let mut i: usize = 0;
    while i < cs.len()
        invariant
            i <= cs@.len(),
            stats_view(stats@) == end_chars(stats_view(old(stats)@), cs@.take(i as int)),
        decreases cs.len() - i,
    {
        proof {
            assert(cs@.take(i + 1).drop_last() =~= cs@.take(i as int));
        }
        let c = &cs[i];
        match normalized_account_id(&c.account_id) {
            Some(x) => {
                match find_acc(stats, &x) {
                    Some(k) => {
                        let ghost before = stats_view(stats@);
                        let a = &stats[k];
                        let updated = StatsAccumulator {
                            account_id: a.account_id.clone(),
                            name: a.name.clone(),
                            team_id: a.team_id,
                            damage: a.damage,
                            kills: a.kills,
                            assists: a.assists,
                            revives: a.revives,
                            placement: c.ranking,
                        };
                        stats.set(k, updated);
                        assert(stats_view(stats@) =~= before.update(k as int, AccV { placement: c.ranking, ..before[k as int] }));
                    },
                    None => {},
                }
            },
            None => {},
        }
        i = i + 1;
    }
    assert(cs@.take(cs@.len() as int) =~= cs@);
}

fn event_step_exec(st: &mut ParseState, e: &TelemetryEvent)
    ensures
        final(st).view_state() == event_step(old(st).view_state(), *e),
{
    match e {
        TelemetryEvent::PlayerTakeDamage { attacker, victim, damage, damage_type_category, damage_causer_name, .. } => {
            let a = identity_id(attacker);
            let v = identity_id(victim);
            let an = named_for(&a, &identity_name(attacker));
            let vn = named_for(&v, &identity_name(victim));
            upsert_named_exec(&mut st.names, &a, &an);
            upsert_named_exec(&mut st.names, &v, &vn);
            match (&a, &v, &an) {
                (Some(aid), Some(vid), Some(name)) => {
                    if *vid != *aid {
                        let weapon = display_damage_causer_name(damage_causer_name, damage_type_category);
                        bump_exec(&mut st.stats, aid, name, *damage, 0, 0, 0);
                        add_weapon_damage_exec(&mut st.weapons, aid, name, &weapon, *damage);
                    }
                },
                _ => {},
            }
        },
        TelemetryEvent::PlayerKillV2 { killer, victim, finisher, dbno_maker, assists_account_ids, .. } => {
            let k = or_text(identity_id(killer), or_text(identity_id(dbno_maker), identity_id(finisher)));
            let raw = or_text(identity_name(killer), or_text(identity_name(dbno_maker), identity_name(finisher)));
            let v = identity_id(victim);
            let kn = named_for(&k, &raw);
            let vn = named_for(&v, &identity_name(victim));
            upsert_named_exec(&mut st.names, &k, &kn);
            upsert_named_exec(&mut st.names, &v, &vn);
            match (&k, &kn) {
                (Some(kid), Some(name)) => bump_exec(&mut st.stats, kid, name, 0, 1, 0, 0),
                _ => {},
            }
            assist_exec(&mut st.stats, &st.names, assists_account_ids);
        },
        TelemetryEvent::PlayerMakeGroggy { attacker, victim, .. } => {
            let a = identity_id(attacker);
            let v = identity_id(victim);
            let an = named_for(&a, &identity_name(attacker));
            let vn = named_for(&v, &identity_name(victim));
            upsert_named_exec(&mut st.names, &a, &an);
            upsert_named_exec(&mut st.names, &v, &vn);
        },
        TelemetryEvent::PlayerRevive { reviver, victim, .. } => {
            let r = identity_id(reviver);
            let v = identity_id(victim);
            let rn = named_for(&r, &identity_name(reviver));
            let vn = named_for(&v, &identity_name(victim));
            upsert_named_exec(&mut st.names, &r, &rn);
            upsert_named_exec(&mut st.names, &v, &vn);
            match (&r, &rn) {
                (Some(rid), Some(name)) => bump_exec(&mut st.stats, rid, name, 0, 0, 0, 1),
                _ => {},
            }
        },
        TelemetryEvent::MatchEnd { characters, .. } => {
            end_chars_exec(&mut st.stats, characters);
        },
        _ => {},
    }
}


// ----- the match detail ------------------------------------------------------------------

#[derive(Debug, Clone)]
pub struct TelemetryWeaponDamageStat {
    pub pubg_account_id: String,
    pub pubg_player_name: String,
    pub weapon_name: String,
    /// Total damage in thousandths, rounded to one decimal place.
    pub total_damage: i64,
}

#[derive(Debug, Clone)]
pub struct TelemetryMatchDetail {
    pub player_stats: Vec<PlayerStats>,
    pub damage_events: Vec<TelemetryDamageEvent>,
    pub kill_events: Vec<TelemetryKillEvent>,
    pub knock_events: Vec<TelemetryKnockEvent>,
    pub revive_events: Vec<TelemetryReviveEvent>,
    pub weapon_damage_stats: Vec<TelemetryWeaponDamageStat>,
    pub match_start_at: Option<String>,
    pub match_end_at: Option<String>,
}

/// The start time: the first `MatchStart` event with a timestamp that is not blank.
pub open spec fn start_at_spec(events: Seq<TelemetryEvent>) -> Option<Seq<char>>
    decreases events.len(),
{
    if events.len() == 0 {
        None
    } else {
        match start_at_spec(events.drop_last()) {
            Some(x) => Some(x),
            None => match events.last() {
                TelemetryEvent::MatchStart { event_at, .. } => norm_text(opt_text(event_at)),
                _ => None,
            },
        }
    }
}

/// The end time: the timestamp of the last `MatchEnd` event (`None` when it has none).
pub open spec fn end_at_spec(events: Seq<TelemetryEvent>) -> Option<Seq<char>>
    decreases events.len(),
{
    if events.len() == 0 {
        None
    } else {
        match events.last() {
            TelemetryEvent::MatchEnd { event_at, .. } => norm_text(opt_text(event_at)),
            _ => end_at_spec(events.drop_last()),
        }
    }
}

/// A player's statistics as plain values.
pub struct PlayerStatsV {
    pub pubg_account_id: Seq<char>,
    pub pubg_player_name: Seq<char>,
    pub damage: i64,
    pub kills: i64,
    pub assists: i64,
    pub revives: i64,
    pub team_id: Option<i64>,
    pub placement: Option<i64>,
}

pub open spec fn player_stats_view(p: PlayerStats) -> PlayerStatsV {
    PlayerStatsV {
        pubg_account_id: p.pubg_account_id@,
        pubg_player_name: p.pubg_player_name@,
        damage: p.damage,
        kills: p.kills,
        assists: p.assists,
        revives: p.revives,
        team_id: p.team_id,
        placement: p.placement,
    }
}

/// The statistics reported for a player's totals: damage rounded to one decimal place.
pub open spec fn acc_to_player_stats(a: AccV) -> PlayerStatsV {
    PlayerStatsV {
        pubg_account_id: a.account_id,
        pubg_player_name: a.name,
        damage: round_damage_spec(a.damage),
        kills: a.kills,
        assists: a.assists,
        revives: a.revives,
        team_id: a.team_id,
        placement: a.placement,
    }
}

/// Order of the player list: most kills first, then most damage, then name.
pub open spec fn player_stats_order(p: PlayerStats) -> Seq<KeyV> {
    seq![KeyV::Int(-p.kills), KeyV::Int(-p.damage), KeyV::Text(p.pubg_player_name@)]
}

/// `player_stats_order` read on a player's view.
pub open spec fn player_stats_order_v(p: PlayerStatsV) -> Seq<KeyV> {
    seq![KeyV::Int(-p.kills), KeyV::Int(-p.damage), KeyV::Text(p.pubg_player_name)]
}

/// Order of the weapon list: most (unrounded) damage first, then player name, then weapon.
pub open spec fn weapon_order(w: WeaponV) -> Seq<KeyV> {
    seq![KeyV::Int(-w.total), KeyV::Text(w.player_name), KeyV::Text(w.weapon_name)]
}

pub open spec fn weapon_acc_order(w: WeaponDamageAccumulator) -> Seq<KeyV> {
    weapon_order(w.view_weapon())
}

/// A weapon total as reported: rounded to one decimal place.
pub open spec fn round_weapon(w: WeaponV) -> WeaponV {
    WeaponV { total: round_damage_spec(w.total), ..w }
}

pub open spec fn weapon_stat_view(w: TelemetryWeaponDamageStat) -> WeaponV {
    WeaponV {
        account_id: w.pubg_account_id@,
        player_name: w.pubg_player_name@,
        weapon_name: w.weapon_name@,
        total: w.total_damage,
    }
}

pub open spec fn damage_view(v: Seq<TelemetryDamageEvent>) -> Seq<EventRecordV> {
    v.map_values(|d: TelemetryDamageEvent| d.record())
}

pub open spec fn kill_view(v: Seq<TelemetryKillEvent>) -> Seq<EventRecordV> {
    v.map_values(|d: TelemetryKillEvent| d.record())
}

pub open spec fn knock_view(v: Seq<TelemetryKnockEvent>) -> Seq<EventRecordV> {
    v.map_values(|d: TelemetryKnockEvent| d.record())
}

pub open spec fn revive_view(v: Seq<TelemetryReviveEvent>) -> Seq<EventRecordV> {
    v.map_values(|d: TelemetryReviveEvent| d.record())
}

/// The statistics, event records and times of a match.
///
/// Each record list holds one record per event of its kind, in event order. The player list
/// holds the totals of `state_after(events)`, damage rounded, ordered by `player_stats_order`;
/// the weapon list holds its weapon totals ordered by `weapon_order` and then rounded.
pub fn parse_match_detail(events: &Vec<TelemetryEvent>) -> (res: TelemetryMatchDetail)
    ensures
        damage_view(res.damage_events@) == damage_records(events@),
        kill_view(res.kill_events@) == kill_records(events@),
        knock_view(res.knock_events@) == knock_records(events@),
        revive_view(res.revive_events@) == revive_records(events@),
        opt_text(res.match_start_at) == start_at_spec(events@),
        opt_text(res.match_end_at) == end_at_spec(events@),
        res.player_stats@.map_values(|p: PlayerStats| player_stats_view(p)).to_multiset()
            == state_after(events@).stats.map_values(|a: AccV| acc_to_player_stats(a)).to_multiset(),
        sorted_by(res.player_stats@, |p: PlayerStats| player_stats_order(p)),
        stable_order(
            state_after(events@).stats.map_values(|a: AccV| acc_to_player_stats(a)),
            res.player_stats@.map_values(|p: PlayerStats| player_stats_view(p)),
            |v: PlayerStatsV| player_stats_order_v(v),
        ),
        exists|sorted: Seq<WeaponV>|
            {
                &&& #[trigger] sorted.to_multiset() == state_after(events@).weapons.to_multiset()
                &&& sorted_by(sorted, |w: WeaponV| weapon_order(w))
                &&& stable_order(state_after(events@).weapons, sorted, |w: WeaponV| weapon_order(w))
                &&& res.weapon_damage_stats@.map_values(|w: TelemetryWeaponDamageStat| weapon_stat_view(w))
                    == sorted.map_values(|w: WeaponV| round_weapon(w))
            },
{
    let mut st = ParseState { names: Vec::new(), stats: Vec::new(), weapons: Vec::new() };
    let mut match_start_at: Option<String> = None;
    let mut i: usize = 0;
    proof {
        assert(names_view(st.names@) =~= Seq::<NameV>::empty());
        assert(stats_view(st.stats@) =~= Seq::<AccV>::empty());
        assert(weapons_view(st.weapons@) =~= Seq::<WeaponV>::empty());
    }
    while i < events.len()
        invariant
            i <= events@.len(),
            st.view_state() == start_pass(events@.take(i as int)),
            opt_text(match_start_at) == start_at_spec(events@.take(i as int)),
        decreases events.len() - i,
    {
        proof {
            assert(events@.take(i + 1).drop_last() =~= events@.take(i as int));
        }
        let e = &events[i];
        if match_start_at.is_none() {
            match e {
                TelemetryEvent::MatchStart { event_at, .. } => {
                    match_start_at = normalized_timestamp(event_at);
                },
                _ => {},
            }
        }
        start_step_exec(&mut st, e);
        i = i + 1;
    }
    assert(events@.take(events@.len() as int) =~= events@);
    let ghost first = st.view_state();

    let mut damage_events: Vec<TelemetryDamageEvent> = Vec::new();
    let mut kill_events: Vec<TelemetryKillEvent> = Vec::new();
    let mut knock_events: Vec<TelemetryKnockEvent> = Vec::new();
    let mut revive_events: Vec<TelemetryReviveEvent> = Vec::new();
    let mut match_end_at: Option<String> = None;
    let mut i: usize = 0;
    proof {
        assert(damage_view(damage_events@) =~= Seq::<EventRecordV>::empty());
        assert(kill_view(kill_events@) =~= Seq::<EventRecordV>::empty());
        assert(knock_view(knock_events@) =~= Seq::<EventRecordV>::empty());
        assert(revive_view(revive_events@) =~= Seq::<EventRecordV>::empty());
    }
    while i < events.len()
        invariant
            i <= events@.len(),
            first == start_pass(events@),
            st.view_state() == event_pass(events@.take(i as int), first),
            damage_view(damage_events@) == damage_records(events@.take(i as int)),
            kill_view(kill_events@) == kill_records(events@.take(i as int)),
            knock_view(knock_events@) == knock_records(events@.take(i as int)),
            revive_view(revive_events@) == revive_records(events@.take(i as int)),
            opt_text(match_end_at) == end_at_spec(events@.take(i as int)),
        decreases events.len() - i,
    {
        proof {
            assert(events@.take(i + 1).drop_last() =~= events@.take(i as int));
        }
        let e = &events[i];
        match e {
            TelemetryEvent::PlayerTakeDamage { .. } => {
                let r = damage_record(e);
                damage_events.push(r);
                assert(damage_view(damage_events@) =~= damage_records(events@.take(i + 1)));
            },
            TelemetryEvent::PlayerKillV2 { .. } => {
                let r = kill_record(e);
                kill_events.push(r);
                assert(kill_view(kill_events@) =~= kill_records(events@.take(i + 1)));
            },
            TelemetryEvent::PlayerMakeGroggy { .. } => {
                let r = knock_record(e);
                knock_events.push(r);
                assert(knock_view(knock_events@) =~= knock_records(events@.take(i + 1)));
            },
            TelemetryEvent::PlayerRevive { .. } => {
                let r = revive_record(e);
                revive_events.push(r);
                assert(revive_view(revive_events@) =~= revive_records(events@.take(i + 1)));
            },
            TelemetryEvent::MatchEnd { event_at, .. } => {
                match_end_at = normalized_timestamp(event_at);
            },
            _ => {},
        }
        event_step_exec(&mut st, e);
        i = i + 1;
    }
    assert(events@.take(events@.len() as int) =~= events@);

    let ParseState { names: _, stats, weapons } = st;
    let player_stats = finish_player_stats(stats);
    let weapon_damage_stats = finish_weapon_stats(weapons);

    TelemetryMatchDetail {
        player_stats,
        damage_events,
        kill_events,
        knock_events,
        revive_events,
        weapon_damage_stats,
        match_start_at,
        match_end_at,
    }
}

fn finish_player_stats(stats: Vec<StatsAccumulator>) -> (res: Vec<PlayerStats>)
    ensures
        res@.map_values(|p: PlayerStats| player_stats_view(p)).to_multiset()
            == stats_view(stats@).map_values(|a: AccV| acc_to_player_stats(a)).to_multiset(),
        sorted_by(res@, |p: PlayerStats| player_stats_order(p)),
        stable_order(
            stats_view(stats@).map_values(|a: AccV| acc_to_player_stats(a)),
            res@.map_values(|p: PlayerStats| player_stats_view(p)),
            |v: PlayerStatsV| player_stats_order_v(v),
        ),
{
    let mut items: Vec<PlayerStats> = Vec::new();
    let mut keys: Vec<Vec<KeyPart>> = Vec::new();
    let mut i: usize = 0;
    while i < stats.len()
        invariant
            i <= stats@.len(),
            items@.len() == i,
            keys@.len() == i,
            items@.map_values(|p: PlayerStats| player_stats_view(p))
                == stats_view(stats@).take(i as int).map_values(|a: AccV| acc_to_player_stats(a)),
            forall|k: int| 0 <= k < i ==> key_view(#[trigger] keys@[k]@) == player_stats_order(items@[k]),
        decreases stats.len() - i,
    {
        let a = &stats[i];
        let p = PlayerStats {
            pubg_account_id: a.account_id.clone(),
            pubg_player_name: a.name.clone(),
            damage: round_damage(a.damage),
            kills: a.kills,
            assists: a.assists,
            revives: a.revives,
            team_id: a.team_id,
            placement: a.placement,
        };
        let mut key: Vec<KeyPart> = Vec::new();
        key.push(KeyPart::Int(-(p.kills as i128)));
        key.push(KeyPart::Int(-(p.damage as i128)));
        key.push(KeyPart::Text(p.pubg_player_name.clone()));
        proof {
            assert(key_view(key@) =~= player_stats_order(p));
            assert(player_stats_view(p) == acc_to_player_stats(a.view_acc()));
        }
        let ghost old_items = items@;
        let ghost pv = player_stats_view(p);
        items.push(p);
        keys.push(key);
        proof {
            assert(stats_view(stats@).take(i + 1) =~= stats_view(stats@).take(i as int).push(a.view_acc()));
            assert(items@.map_values(|p: PlayerStats| player_stats_view(p))
                =~= old_items.map_values(|p: PlayerStats| player_stats_view(p)).push(pv));
            assert(items@.map_values(|p: PlayerStats| player_stats_view(p))
                =~= stats_view(stats@).take(i + 1).map_values(|a: AccV| acc_to_player_stats(a)));
        }
        i = i + 1;
    }
    assert(stats_view(stats@).take(stats@.len() as int) =~= stats_view(stats@));
    let ghost built = items@;
    let sorted = sort_by_keys(items, keys, Ghost(|p: PlayerStats| player_stats_order(p)));
    proof {
        lemma_map_multiset(sorted@, built, |p: PlayerStats| player_stats_view(p));
        assert forall|t: PlayerStats| #[trigger] player_stats_order(t) == player_stats_order_v(player_stats_view(t)) by {}
        lemma_stable_order_views(
            built,
            sorted@,
            |p: PlayerStats| player_stats_order(p),
            |p: PlayerStats| player_stats_view(p),
            |v: PlayerStatsV| player_stats_order_v(v),
        );
    }
    sorted
}

fn finish_weapon_stats(weapons: Vec<WeaponDamageAccumulator>) -> (res: Vec<TelemetryWeaponDamageStat>)
    ensures
        exists|sorted: Seq<WeaponV>|
            {
                &&& #[trigger] sorted.to_multiset() == weapons_view(weapons@).to_multiset()
                &&& sorted_by(sorted, |w: WeaponV| weapon_order(w))
                &&& stable_order(weapons_view(weapons@), sorted, |w: WeaponV| weapon_order(w))
                &&& res@.map_values(|w: TelemetryWeaponDamageStat| weapon_stat_view(w))
                    == sorted.map_values(|w: WeaponV| round_weapon(w))
            },
{
    let mut keys: Vec<Vec<KeyPart>> = Vec::new();
    let mut i: usize = 0;
    while i < weapons.len()
        invariant
            i <= weapons@.len(),
            keys@.len() == i,
            forall|k: int| 0 <= k < i ==> key_view(#[trigger] keys@[k]@) == weapon_acc_order(weapons@[k]),
        decreases weapons.len() - i,
    {
        let w = &weapons[i];
        let mut key: Vec<KeyPart> = Vec::new();
        key.push(KeyPart::Int(-(w.total_damage as i128)));
        key.push(KeyPart::Text(w.pubg_player_name.clone()));
        key.push(KeyPart::Text(w.weapon_name.clone()));
        proof {
            assert(key_view(key@) =~= weapon_acc_order(*w));
        }
        keys.push(key);
        i = i + 1;
    }
    let ghost whole = weapons@;
    let sorted = sort_by_keys(weapons, keys, Ghost(|w: WeaponDamageAccumulator| weapon_acc_order(w)));
    let mut res: Vec<TelemetryWeaponDamageStat> = Vec::new();
    let mut j: usize = 0;
    while j < sorted.len()
        invariant
            j <= sorted@.len(),
            res@.map_values(|w: TelemetryWeaponDamageStat| weapon_stat_view(w))
                == weapons_view(sorted@).take(j as int).map_values(|w: WeaponV| round_weapon(w)),
        decreases sorted.len() - j,
    {
        let w = &sorted[j];
        let stat = TelemetryWeaponDamageStat {
            pubg_account_id: w.pubg_account_id.clone(),
            pubg_player_name: w.pubg_player_name.clone(),
            weapon_name: w.weapon_name.clone(),
            total_damage: round_damage(w.total_damage),
        };
        let ghost old_res = res@;
        let ghost sv = weapon_stat_view(stat);
        assert(sv == round_weapon(w.view_weapon()));
        res.push(stat);
        proof {
            assert(res@.map_values(|w: TelemetryWeaponDamageStat| weapon_stat_view(w))
                =~= old_res.map_values(|w: TelemetryWeaponDamageStat| weapon_stat_view(w)).push(sv));
            assert(weapons_view(sorted@).take(j + 1) =~= weapons_view(sorted@).take(j as int).push(w.view_weapon()));
            assert(res@.map_values(|w: TelemetryWeaponDamageStat| weapon_stat_view(w))
                =~= weapons_view(sorted@).take(j + 1).map_values(|w: WeaponV| round_weapon(w)));
        }
        j = j + 1;
    }
    proof {
        assert(weapons_view(sorted@).take(sorted@.len() as int) =~= weapons_view(sorted@));
        lemma_map_multiset(sorted@, whole, |w: WeaponDamageAccumulator| w.view_weapon());
        assert(weapons_view(sorted@) =~= sorted@.map_values(|w: WeaponDamageAccumulator| w.view_weapon()));
        assert(weapons_view(whole) =~= whole.map_values(|w: WeaponDamageAccumulator| w.view_weapon()));
        assert forall|t: WeaponDamageAccumulator| #[trigger] weapon_acc_order(t) == weapon_order(t.view_weapon()) by {}
        lemma_stable_order_views(
            whole,
            sorted@,
            |w: WeaponDamageAccumulator| weapon_acc_order(w),
            |w: WeaponDamageAccumulator| w.view_weapon(),
            |w: WeaponV| weapon_order(w),
        );
        assert forall|a: int, b: int| 0 <= a < b < weapons_view(sorted@).len() implies
            crate::sort::key_le(weapon_order(#[trigger] weapons_view(sorted@)[a]), weapon_order(#[trigger] weapons_view(sorted@)[b])) by {
            assert(weapon_acc_order(sorted@[a]) == weapon_order(weapons_view(sorted@)[a]));
            assert(weapon_acc_order(sorted@[b]) == weapon_order(weapons_view(sorted@)[b]));
        }
    }
    res
}

/// The statistics of every player (see `parse_match_detail`).
pub fn aggregate_player_stats(events: &Vec<TelemetryEvent>) -> (res: Vec<PlayerStats>)
    ensures
        res@.map_values(|p: PlayerStats| player_stats_view(p)).to_multiset()
            == state_after(events@).stats.map_values(|a: AccV| acc_to_player_stats(a)).to_multiset(),
        sorted_by(res@, |p: PlayerStats| player_stats_order(p)),
        stable_order(
            state_after(events@).stats.map_values(|a: AccV| acc_to_player_stats(a)),
            res@.map_values(|p: PlayerStats| player_stats_view(p)),
            |v: PlayerStatsV| player_stats_order_v(v),
        ),
{
    parse_match_detail(events).player_stats
}

// ----- what a kill credits ---------------------------------------------------------------

/// The kills on record for `id` (zero for a player without totals).
pub open spec fn kills_of(stats: Seq<AccV>, id: Seq<char>) -> i64 {
    let i = first_where(stats, acc_key(id));
    if i >= 0 {
        stats[i].kills
    } else {
        0
    }
}

/// The assists on record for `id` (zero for a player without totals).
pub open spec fn assists_of(stats: Seq<AccV>, id: Seq<char>) -> i64 {
    let i = first_where(stats, acc_key(id));
    if i >= 0 {
        stats[i].assists
    } else {
        0
    }
}

/// The damage on record for `id`, in thousandths (zero for a player without totals).
pub open spec fn damage_of(stats: Seq<AccV>, id: Seq<char>) -> i64 {
    let i = first_where(stats, acc_key(id));
    if i >= 0 {
        stats[i].damage
    } else {
        0
    }
}

/// The revives on record for `id` (zero for a player without totals).
pub open spec fn revives_of(stats: Seq<AccV>, id: Seq<char>) -> i64 {
    let i = first_where(stats, acc_key(id));
    if i >= 0 {
        stats[i].revives
    } else {
        0
    }
}

/// How many of the listed account ids are `id` once trimmed (blank ones name nobody).
pub open spec fn times_listed(ids: Seq<String>, id: Seq<char>) -> nat
    decreases ids.len(),
{
    if ids.len() == 0 {
        0
    } else {
        times_listed(ids.drop_last(), id) + if norm_text(Some(ids.last()@)) == Some(id) {
            1nat
        } else {
            0nat
        }
    }
}

proof fn lemma_first_where_pushed<T>(s: Seq<T>, p: spec_fn(T) -> bool, v: T)
    ensures
        first_where(s.push(v), p) == if first_where(s, p) >= 0 {
            first_where(s, p)
        } else if p(v) {
            s.len() as int
        } else {
            -1
        },
{
    lemma_first_where_facts(s, p);
    let u = s.push(v);
    let f = first_where(s, p);
    if f >= 0 {
        assert(u[f] == s[f]);
        assert forall|j: int| 0 <= j < f implies !p(#[trigger] u[j]) by {
            assert(u[j] == s[j]);
            assert(!p(s[j]));
        }
        lemma_first_where(u, p, f);
    } else {
        assert forall|j: int| 0 <= j < s.len() implies !p(#[trigger] u[j]) by {
            assert(u[j] == s[j]);
            assert(!p(s[j]));
        }
        if p(v) {
            lemma_first_where(u, p, s.len() as int);
        } else {
            lemma_first_where(u, p, u.len() as int);
        }
    }
}

/// What `bump` adds shows in the counts of the player it names, and nowhere else.
proof fn lemma_bump_counts(stats: Seq<AccV>, id: Seq<char>, name: Seq<char>, damage: i64, kills: i64, assists: i64, revives: i64, x: Seq<char>)
    ensures
        kills_of(bump(stats, id, name, damage, kills, assists, revives), x) == if x == id {
            sat_add(kills_of(stats, x), kills)
        } else {
            kills_of(stats, x)
        },
        assists_of(bump(stats, id, name, damage, kills, assists, revives), x) == if x == id {
            sat_add(assists_of(stats, x), assists)
        } else {
            assists_of(stats, x)
        },
        damage_of(bump(stats, id, name, damage, kills, assists, revives), x) == if x == id {
            sat_add(damage_of(stats, x), damage)
        } else {
            damage_of(stats, x)
        },
        revives_of(bump(stats, id, name, damage, kills, assists, revives), x) == if x == id {
            sat_add(revives_of(stats, x), revives)
        } else {
            revives_of(stats, x)
        },
{
    let s1 = with_acc(stats, id, name, None);
    lemma_first_where_pushed(stats, acc_key(x), new_acc(id, name, None));
    lemma_first_where_pushed(stats, acc_key(id), new_acc(id, name, None));
    lemma_first_where_facts(stats, acc_key(x));
    lemma_first_where_facts(stats, acc_key(id));
    assert(first_where(s1, acc_key(x)) == first_where(stats, acc_key(x)) || x == id);
    let i = first_where(s1, acc_key(id));
    lemma_first_where_facts(s1, acc_key(id));
    lemma_first_where_facts(s1, acc_key(x));
    let out = s1.update(i, add_counts(s1[i], damage, kills, assists, revives));
    assert(acc_key(x)(add_counts(s1[i], damage, kills, assists, revives)) == acc_key(x)(s1[i]));
    lemma_first_where_update(s1, acc_key(x), i, add_counts(s1[i], damage, kills, assists, revives));
    if x != id {
        let j = first_where(s1, acc_key(x));
        if j >= 0 {
            assert(j != i);
            assert(out[j] == s1[j]);
            if first_where(stats, acc_key(x)) < 0 {
                assert(s1[j] == new_acc(id, name, None));
            }
        }
    } else {
        if first_where(stats, acc_key(id)) < 0 {
            assert(s1[i] == new_acc(id, name, None));
        }
    }
}

/// Crediting the assistants leaves every player's kills as they were and gives each player
/// one assist per time it is listed.
proof fn lemma_assist_fold_counts(stats: Seq<AccV>, names: Seq<NameV>, ids: Seq<String>, x: Seq<char>)
    ensures
        kills_of(assist_fold(stats, names, ids), x) == kills_of(stats, x),
        damage_of(assist_fold(stats, names, ids), x) == damage_of(stats, x),
        revives_of(assist_fold(stats, names, ids), x) == revives_of(stats, x),
        assists_of(assist_fold(stats, names, ids), x) == saturate_i64(assists_of(stats, x) + times_listed(ids, x)),
    decreases ids.len(),
{
    if ids.len() > 0 {
        lemma_assist_fold_counts(stats, names, ids.drop_last(), x);
        let s = assist_fold(stats, names, ids.drop_last());
        match norm_text(Some(ids.last()@)) {
            Some(y) => {
                lemma_bump_counts(s, y, lookup_name(names, y), 0, 0, 1, 0, x);
            },
            None => {},
        }
    }
}

/// One more event that is not a `MatchStart` acts on the state that the events before it
/// left.
proof fn lemma_state_after_push(events: Seq<TelemetryEvent>, e: TelemetryEvent)
    requires
        !(e is MatchStart),
    ensures
        state_after(events.push(e)) == event_step(state_after(events), e),
{
    assert(events.push(e).drop_last() =~= events);
    assert(start_pass(events.push(e)) == start_pass(events));
}

/// A kill credits one kill to its killer (the killer, else the player who knocked the victim
/// down, else the finisher) and nobody else, and one assist to each listed assistant for each
/// time it is listed (blank ids name nobody); no assistant gains a kill for assisting.
pub proof fn law_kill_credits_killer_and_assistants(events: Seq<TelemetryEvent>, e: TelemetryEvent, x: Seq<char>)
    ensures
        e matches TelemetryEvent::PlayerKillV2 { killer, dbno_maker, finisher, assists_account_ids, .. } ==> {
            let before = state_after(events).stats;
            let after = state_after(events.push(e)).stats;
            &&& kills_of(after, x) == if killer_id_of(killer, dbno_maker, finisher) == Some(x) {
                sat_add(kills_of(before, x), 1)
            } else {
                kills_of(before, x)
            }
            &&& assists_of(after, x) == saturate_i64(assists_of(before, x) + times_listed(assists_account_ids@, x))
            &&& damage_of(after, x) == damage_of(before, x)
            &&& revives_of(after, x) == revives_of(before, x)
        },
{
    match e {
        TelemetryEvent::PlayerKillV2 { killer, victim, finisher, dbno_maker, assists_account_ids, .. } => {
            lemma_state_after_push(events, e);
            let st = state_after(events);
            let k = killer_id_of(killer, dbno_maker, finisher);
            let kn = named(k, killer_raw_name_of(killer, dbno_maker, finisher));
            let vn = named(ident_id(victim), ident_name(victim));
            let names = upsert_named(upsert_named(st.names, k, kn), ident_id(victim), vn);
            let s1 = match k {
                Some(kid) => bump(st.stats, kid, kn.unwrap(), 0, 1, 0, 0),
                None => st.stats,
            };
            match k {
                Some(kid) => {
                    lemma_bump_counts(st.stats, kid, kn.unwrap(), 0, 1, 0, 0, x);
                },
                None => {},
            }
            lemma_assist_fold_counts(s1, names, assists_account_ids@, x);
        },
        _ => {},
    }
}

/// Damage is credited to its attacker: when a player with an account id damages another one,
/// the attacker's damage grows by the amount and nobody else's changes; self-damage and
/// damage without both ids credit nobody. No damage counts as a kill, assist or revive.
pub proof fn law_damage_credits_attacker(events: Seq<TelemetryEvent>, e: TelemetryEvent, x: Seq<char>)
    ensures
        e matches TelemetryEvent::PlayerTakeDamage { attacker, victim, damage, .. } ==> {
            let before = state_after(events).stats;
            let after = state_after(events.push(e)).stats;
            &&& damage_of(after, x) == if ident_id(attacker) == Some(x) && ident_id(victim) is Some && ident_id(victim) != Some(x) {
                sat_add(damage_of(before, x), damage)
            } else {
                damage_of(before, x)
            }
            &&& kills_of(after, x) == kills_of(before, x)
            &&& assists_of(after, x) == assists_of(before, x)
            &&& revives_of(after, x) == revives_of(before, x)
        },
{
    match e {
        TelemetryEvent::PlayerTakeDamage { attacker, victim, damage, .. } => {
            lemma_state_after_push(events, e);
            let st = state_after(events);
            match (ident_id(attacker), ident_id(victim)) {
                (Some(aid), Some(vid)) => if vid != aid {
                    lemma_bump_counts(st.stats, aid, named(ident_id(attacker), ident_name(attacker)).unwrap(), damage, 0, 0, 0, x);
                },
                _ => {},
            }
        },
        _ => {},
    }
}

/// A revive credits one revive to its reviver and nobody else, and nothing more.
pub proof fn law_revive_credits_reviver(events: Seq<TelemetryEvent>, e: TelemetryEvent, x: Seq<char>)
    ensures
        e matches TelemetryEvent::PlayerRevive { reviver, .. } ==> {
            let before = state_after(events).stats;
            let after = state_after(events.push(e)).stats;
            &&& revives_of(after, x) == if ident_id(reviver) == Some(x) {
                sat_add(revives_of(before, x), 1)
            } else {
                revives_of(before, x)
            }
            &&& kills_of(after, x) == kills_of(before, x)
            &&& assists_of(after, x) == assists_of(before, x)
            &&& damage_of(after, x) == damage_of(before, x)
        },
{
    match e {
        TelemetryEvent::PlayerRevive { reviver, .. } => {
            lemma_state_after_push(events, e);
            let st = state_after(events);
            match ident_id(reviver) {
                Some(rid) => {
                    lemma_bump_counts(st.stats, rid, named(ident_id(reviver), ident_name(reviver)).unwrap(), 0, 0, 0, 1, x);
                },
                None => {},
            }
        },
        _ => {},
    }
}

} // verus!
