//! How the web console words what it shows.

use vstd::prelude::*;
use crate::meta::Time;
use crate::models::{ConditionDto, ResourceSummary};
use crate::numeral::{a_written_number_reads_back, parse_i64, parsed, signed, signed_of};
use crate::snapshot::ms_of;
use crate::text::{chars_of, same, strip_prefix};

verus! {

broadcast use vstd::seq_lib::group_seq_properties;

// ---------------------------------------------------------------------------
// Campaign names
// ---------------------------------------------------------------------------

/// The name without the prefixes that it begins with; the last one stays where nothing
/// follows it.
pub open spec fn without_prefixes(name: Seq<char>, prefix: Seq<char>) -> Seq<char>
    decreases name.len(),
{
    if prefix.len() > 0 && prefix.is_prefix_of(name) && name.len() > prefix.len() {
        without_prefixes(name.skip(prefix.len() as int), prefix)
    } else {
        name
    }
}

/// A campaign's name as lists show it.
pub open spec fn label_of(c: ResourceSummary) -> Seq<char> {
    match c.drive {
        Some(drive) => without_prefixes(c.name@, drive@ + "-"@),
        None => c.name@,
    }
}

/// Campaign name as shown in lists: drive-spawned campaigns repeat the
/// drive name as a prefix (sometimes twice). The resource's name is immutable history,
/// so the viewer strips the echo for display and keeps the full name in the
/// tooltip and search haystack.
pub fn campaign_label(c: &ResourceSummary) -> (r: String)
    ensures
        r@ == label_of(*c),
{
    match &c.drive {
        None => c.name.clone(),
        Some(drive) => {
            let mut prefix = drive.clone();
            prefix.append("-");
            proof {
                reveal_strlit("-");
            }
            let mut shown = c.name.clone();
            loop
                invariant
                    prefix@.len() > 0,
                    without_prefixes(c.name@, prefix@) == without_prefixes(shown@, prefix@),
                ensures
                    without_prefixes(c.name@, prefix@) == shown@,
                decreases shown@.len(),
            {
                match strip_prefix(shown.as_str(), prefix.as_str()) {
                    Some(rest) => {
                        if rest.as_str().is_empty() {
                            break;
                        }
                        shown = rest;
                    },
                    None => {
                        break;
                    },
                }
            }
            shown
        },
    }
}

/// The label of a campaign is the end of its name, and is empty only where the name is: the
/// echo of the drive is stripped, never the whole name.
pub proof fn a_label_ends_the_name(c: ResourceSummary)
    ensures
        label_of(c).len() <= c.name@.len(),
        label_of(c) == c.name@.skip(c.name@.len() - label_of(c).len()),
        label_of(c).len() == 0 ==> c.name@.len() == 0,
{
    if let Some(drive) = c.drive {
        lemma_suffix(c.name@, drive@ + "-"@);
    }
}

proof fn lemma_suffix(name: Seq<char>, prefix: Seq<char>)
    ensures
        without_prefixes(name, prefix).len() <= name.len(),
        without_prefixes(name, prefix) == name.skip(
            name.len() - without_prefixes(name, prefix).len(),
        ),
        without_prefixes(name, prefix).len() == 0 ==> name.len() == 0,
    decreases name.len(),
{
    let out = without_prefixes(name, prefix);
    if prefix.len() > 0 && prefix.is_prefix_of(name) && name.len() > prefix.len() {
        let rest = name.skip(prefix.len() as int);
        lemma_suffix(rest, prefix);
        assert(name.skip(name.len() - out.len()) =~= rest.skip(rest.len() - out.len()));
    } else {
        assert(name.skip(0) =~= name);
    }
}

// ---------------------------------------------------------------------------
// Times
// ---------------------------------------------------------------------------

/// How many bytes the character takes in UTF-8.
pub open spec fn width(c: char) -> nat {
    if (c as u32) < 0x80 {
        1
    } else if (c as u32) < 0x800 {
        2
    } else if (c as u32) < 0x1_0000 {
        3
    } else {
        4
    }
}

/// The first characters of the text that take exactly `n` bytes in UTF-8, if there are such.
pub open spec fn first_bytes(s: Seq<char>, n: nat) -> Option<Seq<char>>
    decreases s.len(),
{
    if n == 0 {
        Some(Seq::empty())
    } else if s.len() == 0 || width(s[0]) > n {
        None
    } else {
        match first_bytes(s.drop_first(), (n - width(s[0])) as nat) {
            Some(rest) => Some(seq![s[0]] + rest),
            None => None,
        }
    }
}

/// The text with a space in place of each `T`.
pub open spec fn spaced(s: Seq<char>) -> Seq<char> {
    s.map_values(|c: char| if c == 'T' { ' ' } else { c })
}

/// An RFC 3339 timestamp down to the minute.
pub open spec fn minute_of(at: Seq<char>) -> Seq<char> {
    match first_bytes(at, 16) {
        Some(s) => spaced(s),
        None => at,
    }
}

fn width_of(c: char) -> (r: u32)
    ensures
        r == width(c),
{
    let n: u32 = c as u32;
    if n < 0x80 {
        1
    } else if n < 0x800 {
        2
    } else if n < 0x1_0000 {
        3
    } else {
        4
    }
}

/// RFC 3339 timestamp (status fields) → `YYYY-MM-DD HH:MM`, as epoch-millis strings read.
pub fn fmt_rfc3339(at: &str) -> (r: String)
    ensures
        r@ == minute_of(at@),
{
    let v = chars_of(at);
    let mut out = String::new();
    let mut left: u32 = 16;
    let mut i: usize = 0;
    assert(at@.skip(0) =~= at@);
    while left > 0
        invariant
            v@ == at@,
            i <= v.len(),
            left <= 16,
            out@ == spaced(at@.take(i as int)),
            match first_bytes(at@, 16) {
                Some(s) => first_bytes(at@.skip(i as int), left as nat) is Some && s == at@.take(
                    i as int,
                ) + first_bytes(at@.skip(i as int), left as nat)->0,
                None => first_bytes(at@.skip(i as int), left as nat) is None,
            },
        decreases left,
    {
        if i >= v.len() {
            return at.to_owned();
        }
        let c = v[i];
        let w: u32 = width_of(c);
        let ghost rest = at@.skip(i as int);
        assert(rest[0] == c);
        if w > left {
            return at.to_owned();
        }
        let ghost before = out@;
        out.push(if c == 'T' { ' ' } else { c });
        proof {
            assert(rest.drop_first() =~= at@.skip(i + 1));
            assert(at@.take(i + 1) =~= at@.take(i as int).push(c));
            assert(out@ =~= spaced(at@.take(i + 1)));
            if let Some(tail) = first_bytes(rest.drop_first(), (left - w) as nat) {
                assert(at@.take(i as int) + (seq![c] + tail) =~= at@.take(i + 1) + tail);
            }
        }
        left = left - w;
        i = i + 1;
    }
    assert(at@.take(i as int) + Seq::<char>::empty() =~= at@.take(i as int));
    out
}

/// Buffer (ms) added around a run window so the embed shows a little before/after.
pub const RANGE_BUFFER_MS: i64 = 300_000;

/// The time that the text writes, moved.
pub open spec fn moved(ms: Option<String>, by: int, missing: Seq<char>) -> Seq<char> {
    match ms {
        Some(s) => match parsed(s@) {
            Some(n) => signed(n + by),
            None => missing,
        },
        None => missing,
    }
}

/// The time that the text writes, if it writes one, can be moved.
pub open spec fn can_move(ms: Option<String>, by: int) -> bool {
    ms matches Some(s) ==> (parsed(s@) matches Some(n) ==> i64::MIN <= n + by <= i64::MAX)
}

/// The run window of the resource has room for the buffer on both sides.
pub open spec fn window_fits(sel: ResourceSummary) -> bool {
    &&& can_move(sel.started_at, -RANGE_BUFFER_MS)
    &&& can_move(sel.ended_at, RANGE_BUFFER_MS as int)
}

/// Where the window of a resource begins and ends.
pub open spec fn window_of(sel: ResourceSummary) -> (Seq<char>, Seq<char>) {
    (
        moved(sel.started_at, -RANGE_BUFFER_MS, "now-6h"@),
        moved(sel.ended_at, RANGE_BUFFER_MS as int, "now"@),
    )
}

fn in_range(ms: &Option<String>, by: i64) -> (r: bool)
    ensures
        r == can_move(*ms, by as int),
{
    match ms {
        Some(s) => match parse_i64(s.as_str()) {
            Some(n) => n.checked_add(by).is_some(),
            None => true,
        },
        None => true,
    }
}

/// Whether the run window of the resource has room for the buffer on both sides.
pub fn has_window(sel: &ResourceSummary) -> (r: bool)
    ensures
        r == window_fits(*sel),
{
    in_range(&sel.started_at, -RANGE_BUFFER_MS) && in_range(&sel.ended_at, RANGE_BUFFER_MS)
}

fn shift(ms: &Option<String>, by: i64, missing: &str) -> (r: String)
    requires
        can_move(*ms, by as int),
    ensures
        r@ == moved(*ms, by as int, missing@),
{
    match ms {
        Some(s) => match parse_i64(s.as_str()) {
            Some(n) => signed_of(n + by),
            None => missing.to_owned(),
        },
        None => missing.to_owned(),
    }
}

/// Grafana `from`/`to` (epoch-ms strings, or relative) scoped to a resource's run
/// window with a buffer. Unknown start ⇒ default 6h window; still-running ⇒ "now".
pub fn time_range(sel: &ResourceSummary) -> (r: (String, String))
    requires
        window_fits(*sel),
    ensures
        (r.0@, r.1@) == window_of(*sel),
{
    (
        shift(&sel.started_at, -RANGE_BUFFER_MS, "now-6h"),
        shift(&sel.ended_at, RANGE_BUFFER_MS, "now"),
    )
}

/// The dashboard shows all of a run, and five minutes around it: the range of a resource whose
/// row was made from the times of its job begins before the job started, and ends after it
/// ended.
pub proof fn the_range_holds_the_run(sel: ResourceSummary, started: Time, ended: Time)
    requires
        sel.started_at.deep_view() == ms_of(Some(started)),
        sel.ended_at.deep_view() == ms_of(Some(ended)),
        window_fits(sel),
    ensures
        parsed(window_of(sel).0) == Some(started.millis - RANGE_BUFFER_MS),
        parsed(window_of(sel).1) == Some(ended.millis + RANGE_BUFFER_MS),
{
    a_written_number_reads_back(started.millis);
    a_written_number_reads_back(ended.millis);
    a_written_number_reads_back((started.millis - RANGE_BUFFER_MS) as i64);
    a_written_number_reads_back((ended.millis + RANGE_BUFFER_MS) as i64);
}

// ---------------------------------------------------------------------------
// Conditions
// ---------------------------------------------------------------------------

/// A small coloured mark: its style class, its text, and its tooltip.
#[derive(Debug, Clone, PartialEq)]
pub struct Badge {
    pub class: &'static str,
    pub label: String,
    pub title: String,
}

/// The badge says what the condition says: true reads green, anything else red.
pub open spec fn is_badge_of(c: ConditionDto, b: Badge) -> bool {
    &&& b.class@ == (if c.status@ == "True"@ {
        "cond ok"@
    } else {
        "cond bad"@
    })
    &&& b.label@ == c.ctype@ + " "@ + c.status@
    &&& b.title@ == c.reason@
}

/// The badges are those of the conditions, in order.
pub open spec fn are_badges_of(conds: Seq<ConditionDto>, badges: Seq<Badge>) -> bool {
    &&& badges.len() == conds.len()
    &&& forall|i: int| 0 <= i < conds.len() ==> is_badge_of(conds[i], #[trigger] badges[i])
}

/// The class of a condition's badge.
pub fn cond_class(status: &str) -> (r: &'static str)
    ensures
        r@ == (if status@ == "True"@ {
            "cond ok"@
        } else {
            "cond bad"@
        }),
{
    if same(status, "True") {
        "cond ok"
    } else {
        "cond bad"
    }
}

/// Condition badges. Class picks the colour: True reads green, anything else
/// red; the reason rides in the title tooltip.
pub fn cond_badges(conds: &Vec<ConditionDto>) -> (r: Vec<Badge>)
    ensures
        are_badges_of(conds@, r@),
{
    let mut out: Vec<Badge> = Vec::new();
    let mut i: usize = 0;
    while i < conds.len()
        invariant
            i <= conds.len(),
            are_badges_of(conds@.take(i as int), out@),
        decreases conds.len() - i,
    {
        let c = &conds[i];
        let mut label = c.ctype.clone();
        label.append(" ");
        label.append(c.status.as_str());
        out.push(
            Badge { class: cond_class(c.status.as_str()), label, title: c.reason.clone() },
        );
        i = i + 1;
    }
    assert(conds@.take(i as int) =~= conds@);
    out
}

// ---------------------------------------------------------------------------
// What the words say
// ---------------------------------------------------------------------------

/// A campaign of a drive is shown without the drive's name in front, however often it stands there,
/// and any other campaign by its whole name.
pub proof fn a_label_drops_the_drive(c: ResourceSummary, drive: String, rest: Seq<char>)
    requires
        c.drive == Some(drive),
        c.name@ == drive@ + seq!['-'] + rest,
        rest.len() > 0,
    ensures
        !(drive@ + seq!['-']).is_prefix_of(rest) ==> label_of(c) == rest,
        label_of(c) == without_prefixes(rest, drive@ + seq!['-']),
{
    reveal_strlit("-");
    assert("-"@ =~= seq!['-']);
    let prefix = drive@ + "-"@;
    assert(c.name@.subrange(0, prefix.len() as int) =~= prefix);
    assert(c.name@.skip(prefix.len() as int) =~= rest);
    reveal_with_fuel(without_prefixes, 2);
}

/// A name that does not begin with its drive stays as it is, and so does one without a drive.
pub proof fn another_name_stays(c: ResourceSummary)
    ensures
        c.drive is None ==> label_of(c) == c.name@,
        c.drive is Some && !(c.drive->0@ + seq!['-']).is_prefix_of(c.name@) ==> label_of(c)
            == c.name@,
{
    reveal_strlit("-");
    assert("-"@ =~= seq!['-']);
}

/// A time in ASCII is cut to its minute, the T between day and hour becoming a blank, and what is
/// shorter is left alone.
pub proof fn a_time_is_cut_to_its_minute(at: Seq<char>, i: int)
    requires
        forall|k: int| 0 <= k < at.len() ==> (#[trigger] at[k] as u32) < 0x80,
    ensures
        at.len() < 16 ==> minute_of(at) == at,
        at.len() >= 16 ==> minute_of(at).len() == 16,
        at.len() >= 16 && 0 <= i < 16 ==> minute_of(at)[i] == (if at[i] == 'T' {
            ' '
        } else {
            at[i]
        }),
{
    lemma_first_bytes(at, 16);
}

proof fn lemma_first_bytes(s: Seq<char>, n: nat)
    requires
        forall|k: int| 0 <= k < s.len() ==> (#[trigger] s[k] as u32) < 0x80,
    ensures
        s.len() < n ==> first_bytes(s, n) is None,
        s.len() >= n ==> first_bytes(s, n) == Some(s.take(n as int)),
    decreases s.len(),
{
    if n > 0 && s.len() > 0 {
        let t = s.drop_first();
        assert forall|k: int| 0 <= k < t.len() implies (#[trigger] t[k] as u32) < 0x80 by {
            assert(t[k] == s[k + 1]);
        }
        assert((s[0] as u32) < 0x80);
        lemma_first_bytes(t, (n - 1) as nat);
        if s.len() >= n {
            assert(seq![s[0]] + t.take(n - 1) =~= s.take(n as int));
        }
    } else if n == 0 {
        assert(s.take(0) =~= Seq::empty());
    }
}

/// The range goes from five minutes before the start to five minutes after the end; without a start
/// it goes back six hours, and without an end it goes up to now.
pub proof fn the_range_has_five_minutes_to_spare(sel: ResourceSummary)
    ensures
        sel.started_at is None ==> window_of(sel).0 == "now-6h"@,
        sel.ended_at is None ==> window_of(sel).1 == "now"@,
        sel.started_at matches Some(s) ==> (parsed(s@) matches Some(n) ==> window_of(sel).0
            == signed(n - 5 * 60 * 1000)),
        sel.ended_at matches Some(s) ==> (parsed(s@) matches Some(n) ==> window_of(sel).1 == signed(
            n + 5 * 60 * 1000,
        )),
        sel.started_at matches Some(s) ==> (parsed(s@) is None ==> window_of(sel).0 == "now-6h"@),
        sel.ended_at matches Some(s) ==> (parsed(s@) is None ==> window_of(sel).1 == "now"@),
{
}

/// A condition has a good badge exactly when it is true; the badge names its type and status, and
/// tells its reason.
pub proof fn a_badge_is_good_when_the_condition_holds(
    conds: Seq<ConditionDto>,
    badges: Seq<Badge>,
    i: int,
)
    requires
        are_badges_of(conds, badges),
        0 <= i < conds.len(),
    ensures
        badges.len() == conds.len(),
        badges[i].class@ == "cond ok"@ <==> conds[i].status@ == seq!['T', 'r', 'u', 'e'],
        badges[i].class@ == "cond bad"@ <==> conds[i].status@ != seq!['T', 'r', 'u', 'e'],
        badges[i].label@ == conds[i].ctype@ + seq![' '] + conds[i].status@,
        badges[i].title@ == conds[i].reason@,
{
    assert(is_badge_of(conds[i], badges[i]));
    reveal_strlit("cond ok");
    reveal_strlit("cond bad");
    reveal_strlit("True");
    reveal_strlit(" ");
    assert("True"@ =~= seq!['T', 'r', 'u', 'e']);
    assert(" "@ =~= seq![' ']);
    assert("cond ok"@.len() != "cond bad"@.len());
}

} // verus!
