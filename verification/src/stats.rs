use vstd::prelude::*;
use crate::clock::ClockReadings;
use crate::text::{copy_strings, format_total_time, total_time_text, texts};

verus! {

/// Lifetime usage: total seconds kept awake and the milestones already announced.
#[derive(Debug, Clone)]
pub struct UptimeStats {
    pub total_seconds: u64,
    pub milestones_seen: Vec<String>,
}

/// The mathematical content of [`UptimeStats`].
pub struct UptimeStatsView {
    pub total_seconds: u64,
    pub milestones_seen: Seq<Seq<char>>,
}

impl View for UptimeStats {
    type V = UptimeStatsView;

    open spec fn view(&self) -> UptimeStatsView {
        UptimeStatsView { total_seconds: self.total_seconds, milestones_seen: texts(self.milestones_seen@) }
    }
}

impl Default for UptimeStats {
    fn default() -> (r: Self)
        ensures
            r.total_seconds == 0,
            r.milestones_seen@.len() == 0,
    {
        UptimeStats { total_seconds: 0, milestones_seen: Vec::new() }
    }
}

/// The milestones, in the order they are announced: hours of use and name.
pub open spec fn milestone_table() -> Seq<(u64, Seq<char>)> {
    seq![
        (1u64, "First Hour"@),
        (24u64, "24 Hours"@),
        (100u64, "100 Hours"@),
        (168u64, "1 Week"@),
        (500u64, "500 Hours"@),
        (720u64, "1 Month"@),
        (1000u64, "1,000 Hours \u{2014} Seek help"@),
    ]
}

/// The names in `table`, in order, whose hours have been reached and that are not in `seen`.
pub open spec fn milestones_reached(table: Seq<(u64, Seq<char>)>, total_hours: u64, seen: Seq<Seq<char>>) -> Seq<Seq<char>>
    decreases table.len(),
{
    if table.len() == 0 {
        Seq::empty()
    } else {
        let rest = milestones_reached(table.drop_last(), total_hours, seen);
        let m = table.last();
        if total_hours >= m.0 && !seen.contains(m.1) {
            rest.push(m.1)
        } else {
            rest
        }
    }
}

/// The milestones newly reached at `total_hours` hours of use.
pub open spec fn new_milestones(total_hours: u64, seen: Seq<Seq<char>>) -> Seq<Seq<char>> {
    milestones_reached(milestone_table(), total_hours, seen)
}

/// Usage after a session of `elapsed` seconds is added: the total grows by `elapsed` and
/// the milestones now reached are appended.
pub open spec fn after_session(s: UptimeStatsView, elapsed: u64) -> UptimeStatsView {
    let total = (s.total_seconds + elapsed) as u64;
    UptimeStatsView {
        total_seconds: total,
        milestones_seen: s.milestones_seen + new_milestones(total / 3600, s.milestones_seen),
    }
}

fn milestone(i: usize) -> (r: (u64, &'static str))
    requires
        i < 7,
    ensures
        r.0 == milestone_table()[i as int].0,
        r.1@ == milestone_table()[i as int].1,
{
    match i {
        0 => (1, "First Hour"),
        1 => (24, "24 Hours"),
        2 => (100, "100 Hours"),
        3 => (168, "1 Week"),
        4 => (500, "500 Hours"),
        5 => (720, "1 Month"),
        _ => (1000, "1,000 Hours \u{2014} Seek help"),
    }
}

/// Whether `name` is among `seen`.
pub fn contains_text(seen: &Vec<String>, name: &str) -> (r: bool)
    ensures
        r == texts(seen@).contains(name@),
{
    let mut i: usize = 0;
    while i < seen.len()
        invariant
            i <= seen.len(),
            forall|j: int| 0 <= j < i ==> seen@[j]@ != name@,
        decreases seen.len() - i,
    {
        if crate::text::str_eq(seen[i].as_str(), name) {
            assert(texts(seen@)[i as int] == name@);
            return true;
        }
        i = i + 1;
    }
    assert forall|k: int| 0 <= k < texts(seen@).len() implies texts(seen@)[k] != name@ by {
        assert(seen@[k]@ != name@);
    }
    false
}

/// The milestones reached at `total_hours` hours that are not yet in `seen`, in table order.
pub fn check_milestones(total_hours: u64, seen: &Vec<String>) -> (r: Vec<String>)
    ensures
        texts(r@) == new_milestones(total_hours, texts(seen@)),
{
    let mut out: Vec<String> = Vec::new();
    let mut i: usize = 0;
    while i < 7
        invariant
            i <= 7,
            texts(out@) == milestones_reached(milestone_table().take(i as int), total_hours, texts(seen@)),
        decreases 7 - i,
    {
        let (hours, name) = milestone(i);
        proof {
            assert(milestone_table().take(i + 1).drop_last() =~= milestone_table().take(i as int));
            assert(milestone_table().take(i + 1).last() == milestone_table()[i as int]);
        }
        if total_hours >= hours && !contains_text(seen, name) {
            let ghost before = out@;
            out.push(String::from_str(name));
            assert(texts(out@) =~= texts(before).push(name@));
        }
        i = i + 1;
    }
    assert(milestone_table().take(7) =~= milestone_table());
    out
}

/// No two entries of `table` share a name.
pub open spec fn names_distinct(table: Seq<(u64, Seq<char>)>) -> bool {
    forall|i: int, j: int| 0 <= i < j < table.len() ==> table[i].1 != table[j].1
}

proof fn lemma_reached(table: Seq<(u64, Seq<char>)>, h: u64, seen: Seq<Seq<char>>)
    ensures
        forall|k: int|
            #![trigger milestones_reached(table, h, seen)[k]]
            0 <= k < milestones_reached(table, h, seen).len() ==> !seen.contains(
                milestones_reached(table, h, seen)[k],
            ) && exists|j: int|
                0 <= j < table.len() && h >= table[j].0 && table[j].1 == milestones_reached(
                    table,
                    h,
                    seen,
                )[k],
        names_distinct(table) ==> milestones_reached(table, h, seen).no_duplicates(),
        forall|j: int|
            0 <= j < table.len() && h >= #[trigger] table[j].0 && !seen.contains(table[j].1)
                ==> milestones_reached(table, h, seen).contains(table[j].1),
    decreases table.len(),
{
    if table.len() > 0 {
        let front = table.drop_last();
        lemma_reached(front, h, seen);
        let rest = milestones_reached(front, h, seen);
        let r = milestones_reached(table, h, seen);
        let m = table.last();
        assert forall|k: int| #![trigger r[k]] 0 <= k < r.len() implies !seen.contains(r[k])
            && exists|j: int| 0 <= j < table.len() && h >= table[j].0 && table[j].1 == r[k] by {
            if k < rest.len() {
                assert(r[k] == rest[k]);
                let j = choose|j: int| 0 <= j < front.len() && h >= front[j].0 && front[j].1 == rest[k];
                assert(table[j] == front[j]);
            } else {
                assert(table[table.len() - 1] == m);
            }
        }
        if names_distinct(table) {
            assert(names_distinct(front)) by {
                assert forall|i: int, j: int| 0 <= i < j < front.len() implies front[i].1 != front[j].1 by {
                    assert(front[i] == table[i] && front[j] == table[j]);
                }
            }
            if h >= m.0 && !seen.contains(m.1) {
                assert forall|k: int| 0 <= k < rest.len() implies rest[k] != m.1 by {
                    let j = choose|j: int| 0 <= j < front.len() && h >= front[j].0 && front[j].1 == rest[k];
                    assert(front[j] == table[j]);
                    assert(table[table.len() - 1] == m);
                }
                assert(r == rest.push(m.1));
                assert forall|a: int, b: int| 0 <= a < b < r.len() implies r[a] != r[b] by {
                    if b < rest.len() {
                        assert(r[a] == rest[a] && r[b] == rest[b]);
                    } else {
                        assert(r[a] == rest[a]);
                    }
                }
            }
        }
        assert forall|j: int|
            0 <= j < table.len() && h >= #[trigger] table[j].0 && !seen.contains(table[j].1)
            implies r.contains(table[j].1) by {
            if j < front.len() {
                assert(front[j] == table[j]);
                assert(rest.contains(front[j].1));
                let k = choose|k: int| 0 <= k < rest.len() && rest[k] == front[j].1;
                if h >= m.0 && !seen.contains(m.1) {
                    assert(r[k] == rest[k]);
                } else {
                    assert(r == rest);
                }
            } else {
                assert(table[j] == m);
                assert(r[r.len() - 1] == m.1);
            }
        }
    }
}

proof fn lemma_table_names_distinct()
    ensures
        names_distinct(milestone_table()),
{
    reveal_strlit("First Hour");
    reveal_strlit("24 Hours");
    reveal_strlit("100 Hours");
    reveal_strlit("1 Week");
    reveal_strlit("500 Hours");
    reveal_strlit("1 Month");
    reveal_strlit("1,000 Hours \u{2014} Seek help");
    let t = milestone_table();
    assert(t[0].1[0] == 'F' && t[0].1.len() == 10);
    assert(t[1].1[0] == '2' && t[1].1.len() == 8);
    assert(t[2].1[0] == '1' && t[2].1[1] == '0' && t[2].1.len() == 9);
    assert(t[3].1[0] == '1' && t[3].1[1] == ' ' && t[3].1.len() == 6);
    assert(t[4].1[0] == '5' && t[4].1.len() == 9);
    assert(t[5].1[0] == '1' && t[5].1[1] == ' ' && t[5].1.len() == 7);
    assert(t[6].1[0] == '1' && t[6].1[1] == ',');
}

/// Adding a session only adds time and announces milestones: the total grows by exactly
/// the session's length; the milestones already seen stay, in order, at the front; a
/// list without repeats stays without repeats; and afterwards every milestone whose hours
/// the new total has reached has been seen.
pub proof fn lemma_session_milestones(s: UptimeStatsView, elapsed: u64)
    requires
        s.total_seconds + elapsed <= u64::MAX,
    ensures
        after_session(s, elapsed).total_seconds == s.total_seconds + elapsed,
        s.milestones_seen.is_prefix_of(after_session(s, elapsed).milestones_seen),
        s.milestones_seen.no_duplicates() ==> after_session(s, elapsed).milestones_seen.no_duplicates(),
        forall|j: int|
            0 <= j < milestone_table().len() && #[trigger] milestone_table()[j].0
                <= after_session(s, elapsed).total_seconds / 3600
                ==> after_session(s, elapsed).milestones_seen.contains(milestone_table()[j].1),
{
    let a = after_session(s, elapsed);
    let hours = a.total_seconds / 3600;
    let fresh = new_milestones(hours, s.milestones_seen);
    lemma_reached(milestone_table(), hours, s.milestones_seen);
    lemma_table_names_distinct();
    assert(a.milestones_seen.subrange(0, s.milestones_seen.len() as int) =~= s.milestones_seen);
    if s.milestones_seen.no_duplicates() {
        assert forall|x: int, y: int| 0 <= x < y < a.milestones_seen.len() implies a.milestones_seen[x]
            != a.milestones_seen[y] by {
            let n = s.milestones_seen.len() as int;
            if y < n {
                assert(a.milestones_seen[x] == s.milestones_seen[x]);
                assert(a.milestones_seen[y] == s.milestones_seen[y]);
            } else if x < n {
                assert(a.milestones_seen[y] == fresh[y - n]);
                assert(!s.milestones_seen.contains(fresh[y - n]));
                assert(a.milestones_seen[x] == s.milestones_seen[x]);
            } else {
                assert(a.milestones_seen[y] == fresh[y - n]);
                assert(a.milestones_seen[x] == fresh[x - n]);
            }
        }
    }
    assert forall|j: int|
        0 <= j < milestone_table().len() && #[trigger] milestone_table()[j].0 <= hours
        implies a.milestones_seen.contains(milestone_table()[j].1) by {
        let name = milestone_table()[j].1;
        if s.milestones_seen.contains(name) {
            let k = choose|k: int| 0 <= k < s.milestones_seen.len() && s.milestones_seen[k] == name;
            assert(a.milestones_seen[k] == name);
        } else {
            assert(fresh.contains(name));
            let k = choose|k: int| 0 <= k < fresh.len() && fresh[k] == name;
            assert(a.milestones_seen[s.milestones_seen.len() + k] == name);
        }
    }
}

/// The usage level never drops as use grows.
pub proof fn lemma_dosage_monotone(h1: u64, h2: u64)
    requires
        h1 <= h2,
    ensures
        dosage_rank(h1) <= dosage_rank(h2),
{
}

/// Copies usage figures, string by string.
fn copy_stats(s: &UptimeStats) -> (r: UptimeStats)
    ensures
        r@ == s@,
{
    UptimeStats { total_seconds: s.total_seconds, milestones_seen: copy_strings(&s.milestones_seen) }
}

/// Tracks lifetime usage and the session in progress.
pub struct StatsTracker {
    pub stats: UptimeStats,
    /// When the current session started, if one is running.
    pub session_start: Option<std::time::Instant>,
    /// The session lengths read from the clock when sessions ended, in order.
    pub clock: ClockReadings,
}

/// Rank of the usage level reached after `hours` hours: 0 "First timer" up to 5 "Heroic dose".
/// A regular dose starts at 23 hours (the menu shows "Total: 23h (Regular dose)").
pub open spec fn dosage_rank(hours: u64) -> nat {
    if hours == 0 {
        0
    } else if hours <= 22 {
        1
    } else if hours <= 99 {
        2
    } else if hours <= 499 {
        3
    } else if hours <= 999 {
        4
    } else {
        5
    }
}

/// The name of a usage level.
pub open spec fn dosage_name(rank: nat) -> Seq<char> {
    if rank == 0 {
        "First timer"@
    } else if rank == 1 {
        "Casual user"@
    } else if rank == 2 {
        "Regular dose"@
    } else if rank == 3 {
        "Heavy usage"@
    } else if rank == 4 {
        "Prescription strength"@
    } else {
        "Heroic dose"@
    }
}

/// The usage level after `hours` whole hours of use.
pub fn dosage_level_for_hours(hours: u64) -> (r: &'static str)
    ensures
        r@ == dosage_name(dosage_rank(hours)),
{
    if hours == 0 {
        "First timer"
    } else if hours <= 22 {
        "Casual user"
    } else if hours <= 99 {
        "Regular dose"
    } else if hours <= 499 {
        "Heavy usage"
    } else if hours <= 999 {
        "Prescription strength"
    } else {
        "Heroic dose"
    }
}

/// Seconds of a session of `elapsed` seconds that fit on top of a total of `total`: all of
/// them, unless the sum would pass `u64::MAX`, where it stops.
pub open spec fn counted_secs(total: u64, elapsed: u64) -> u64 {
    if total + elapsed <= u64::MAX {
        elapsed
    } else {
        (u64::MAX - total) as u64
    }
}

/// `after` is `before` with its running session, if any, ended and recorded: no session
/// runs. Without a session nothing is read and the figures are unchanged. With one, the
/// seconds elapsed since it started are read from the clock once (the last entry of
/// `after.clock`), and the figures are those after a session of that many seconds.
pub open spec fn session_ended(before: StatsTracker, after: StatsTracker) -> bool {
    &&& after.session_start is None
    &&& before.session_start is None ==> after.stats == before.stats && after.clock@ == before.clock@
    &&& before.session_start is Some ==> {
        &&& after.clock@.len() == before.clock@.len() + 1
        &&& after.clock@ == before.clock@.push(after.clock@.last())
        &&& after.stats@ == after_session(
            before.stats@,
            counted_secs(before.stats.total_seconds, after.clock@.last()),
        )
    }
}

/// Ending a running session adds exactly the seconds read from the clock for it to the
/// total (which stops at `u64::MAX`), keeps the milestones already seen in front, and
/// leaves no milestone reached by the new total unannounced.
pub proof fn lemma_end_session_adds_reading(before: StatsTracker, after: StatsTracker)
    requires
        session_ended(before, after),
        before.session_start is Some,
    ensures
        after.clock@ == before.clock@.push(after.clock@.last()),
        after.stats.total_seconds == (if before.stats.total_seconds + after.clock@.last() <= u64::MAX {
            before.stats.total_seconds + after.clock@.last()
        } else {
            u64::MAX as int
        }),
        before.stats@.milestones_seen.is_prefix_of(after.stats@.milestones_seen),
        forall|j: int|
            0 <= j < milestone_table().len() && #[trigger] milestone_table()[j].0 <= after.stats.total_seconds
                / 3600 ==> after.stats@.milestones_seen.contains(milestone_table()[j].1),
{
    let e = counted_secs(before.stats.total_seconds, after.clock@.last());
    lemma_session_milestones(before.stats@, e);
}

impl StatsTracker {
    /// A tracker starting from persisted figures, or from zero; no session running.
    pub fn new(persisted: Option<UptimeStats>) -> (r: Self)
        ensures
            persisted matches Some(p) ==> r.stats == p,
            persisted is None ==> r.stats.total_seconds == 0 && r.stats.milestones_seen@.len() == 0,
            r.session_start is None,
    {
        let stats = match persisted {
            Some(p) => p,
            None => UptimeStats::default(),
        };
        StatsTracker { stats, session_start: None, clock: ClockReadings::new() }
    }

    /// Starts (or restarts) the current session now.
    pub fn start_session(&mut self)
        ensures
            final(self).session_start is Some,
            final(self).stats == old(self).stats,
            final(self).clock@ == old(self).clock@,
    {
        self.session_start = Some(crate::clock::now());
    }

    /// Adds a finished session of `elapsed` seconds: the total grows by `elapsed` and the
    /// milestones newly reached by the whole hours of the new total are appended in order.
    pub fn add_session(&mut self, elapsed: u64)
        requires
            old(self).stats.total_seconds + elapsed <= u64::MAX,
        ensures
            final(self).stats@ == after_session(old(self).stats@, elapsed),
            final(self).session_start == old(self).session_start,
            final(self).clock@ == old(self).clock@,
    {
        self.stats.total_seconds = self.stats.total_seconds + elapsed;
        let total_hours = self.stats.total_seconds / 3600;
        let mut fresh = check_milestones(total_hours, &self.stats.milestones_seen);
        let ghost before = self.stats.milestones_seen@;
        let ghost fresh_texts = texts(fresh@);
        self.stats.milestones_seen.append(&mut fresh);
        assert(texts(self.stats.milestones_seen@) =~= texts(before) + fresh_texts);
    }

    /// Ends the current session, if one is running, adding its length (read from the
    /// clock, and recorded in `clock`) to the figures as [`Self::add_session`] does. A total
    /// that would pass `u64::MAX` stops there.
    pub fn end_session(&mut self)
        ensures
            session_ended(*old(self), *final(self)),
            old(self).session_start is Some ==> final(self).stats.total_seconds == old(
                self,
            ).stats.total_seconds + counted_secs(old(self).stats.total_seconds, final(self).clock@.last()),
    {
        if let Some(started) = self.session_start.take() {
            let elapsed = crate::clock::elapsed_secs(&started, &mut self.clock);
            let room = u64::MAX - self.stats.total_seconds;
            let counted = if elapsed <= room { elapsed } else { room };
            self.add_session(counted);
        }
    }

    /// The figures including the running session, counted as `current` seconds so far.
    pub fn stats_with_current(&self, current: u64) -> (r: UptimeStats)
        requires
            self.session_start is Some ==> self.stats.total_seconds + current <= u64::MAX,
        ensures
            r@.milestones_seen == self.stats@.milestones_seen,
            r.total_seconds == (if self.session_start is Some {
                (self.stats.total_seconds + current) as u64
            } else {
                self.stats.total_seconds
            }),
    {
        let mut r = copy_stats(&self.stats);
        if self.session_start.is_some() {
            r.total_seconds = r.total_seconds + current;
        }
        r
    }

    /// The figures including the running session. With a session running, the seconds
    /// elapsed since it started are read from the clock once and appended to `readings`,
    /// and the total counts them (stopping at `u64::MAX`); without one nothing is read.
    pub fn get_stats_recorded(&self, readings: &mut ClockReadings) -> (r: UptimeStats)
        ensures
            r@.milestones_seen == self.stats@.milestones_seen,
            self.session_start is None ==> r.total_seconds == self.stats.total_seconds
                && final(readings)@ == old(readings)@,
            self.session_start is Some ==> final(readings)@ == old(readings)@.push(final(readings)@.last())
                && r.total_seconds == self.stats.total_seconds + counted_secs(
                self.stats.total_seconds,
                final(readings)@.last(),
            ),
    {
        match &self.session_start {
            Some(started) => {
                let elapsed = crate::clock::elapsed_secs(started, readings);
                let room = u64::MAX - self.stats.total_seconds;
                let counted = if elapsed <= room { elapsed } else { room };
                self.stats_with_current(counted)
            },
            None => self.stats_with_current(0),
        }
    }

    /// The figures including the running session, whose length is read from the clock.
    pub fn get_stats(&self) -> (r: UptimeStats)
        ensures
            r@.milestones_seen == self.stats@.milestones_seen,
            self.session_start is None ==> r.total_seconds == self.stats.total_seconds,
            r.total_seconds >= self.stats.total_seconds,
    {
        let mut readings = ClockReadings::new();
        self.get_stats_recorded(&mut readings)
    }

    /// Total use so far, as `"{h}h"`, `"{h}h {m}m"` or `"{m}m"`. With a session running,
    /// its seconds so far are read from the clock once, appended to `readings` and counted.
    pub fn format_total_recorded(&self, readings: &mut ClockReadings) -> (r: String)
        ensures
            self.session_start is None ==> final(readings)@ == old(readings)@
                && r@ == total_time_text(self.stats.total_seconds as nat),
            self.session_start is Some ==> final(readings)@ == old(readings)@.push(final(readings)@.last())
                && r@ == total_time_text(
                (self.stats.total_seconds + counted_secs(self.stats.total_seconds, final(readings)@.last())) as nat,
            ),
    {
        let stats = self.get_stats_recorded(readings);
        format_total_time(stats.total_seconds)
    }

    /// Total use so far, as `"{h}h"`, `"{h}h {m}m"` or `"{m}m"`.
    pub fn format_total(&self) -> (r: String)
        ensures
            exists|t: u64|
                t >= self.stats.total_seconds
                && (self.session_start is None ==> t == self.stats.total_seconds)
                && r@ == #[trigger] total_time_text(t as nat),
    {
        let mut readings = ClockReadings::new();
        let r = self.format_total_recorded(&mut readings);
        proof {
            if self.session_start is Some {
                let t = (self.stats.total_seconds + counted_secs(self.stats.total_seconds, readings@.last())) as u64;
                assert(r@ == total_time_text(t as nat));
            } else {
                assert(r@ == total_time_text(self.stats.total_seconds as nat));
            }
        }
        r
    }

    /// The usage level reached so far. With a session running, its seconds so far are read
    /// from the clock once, appended to `readings` and counted.
    pub fn get_dosage_level_recorded(&self, readings: &mut ClockReadings) -> (r: &'static str)
        ensures
            self.session_start is None ==> final(readings)@ == old(readings)@
                && r@ == dosage_name(dosage_rank(self.stats.total_seconds / 3600)),
            self.session_start is Some ==> final(readings)@ == old(readings)@.push(final(readings)@.last())
                && r@ == dosage_name(
                dosage_rank(
                    ((self.stats.total_seconds + counted_secs(self.stats.total_seconds, final(readings)@.last()))
                        / 3600) as u64,
                ),
            ),
    {
        let stats = self.get_stats_recorded(readings);
        dosage_level_for_hours(stats.total_seconds / 3600)
    }

    /// The usage level reached so far.
    pub fn get_dosage_level(&self) -> (r: &'static str)
        ensures
            exists|t: u64|
                t >= self.stats.total_seconds
                && (self.session_start is None ==> t == self.stats.total_seconds)
                && r@ == #[trigger] dosage_name(dosage_rank(t / 3600)),
    {
        let mut readings = ClockReadings::new();
        let r = self.get_dosage_level_recorded(&mut readings);
        proof {
            if self.session_start is Some {
                let t = (self.stats.total_seconds + counted_secs(self.stats.total_seconds, readings@.last())) as u64;
                assert(r@ == dosage_name(dosage_rank(t / 3600)));
            } else {
                assert(r@ == dosage_name(dosage_rank(self.stats.total_seconds / 3600)));
            }
        }
        r
    }
}

} // verus!
