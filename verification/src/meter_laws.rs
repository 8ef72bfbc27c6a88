//! How the meters move, and what the lists of the dashboard say of their tracks.
use crate::compat::{compat_color, compat_percent, key_distance, key_points, tempo_points};
use crate::control_rows::{bars_until, beats_left, mix_label, mix_status};
use crate::deck::NowPlaying;
use crate::meters::{
    abs, crossfader_bar, crossfader_column, cue_dots, needle_column, phase_bar,
    playhead, step_of, tempo_row, vu_cells, volume_row, wave_cell,
};
use crate::panels::{
    highest, lowest, more_text, queue_item, queue_percent, queue_status, rank_text, trend,
};
use crate::readings::decimal_reads_back;
use crate::style::Color;
use crate::text::{decimal, digits_value, max_of};
use vstd::prelude::*;

verus! {

/// A faster deck stands no lower on its tempo strip, a louder one no lower on its
/// volume strip.
pub proof fn faders_move_up(rate: int, faster: int, value: int, louder: int, rows: nat)
    requires
        rate <= faster,
        value <= louder,
        rows > 0,
    ensures
        tempo_row(faster, rows) <= tempo_row(rate, rows),
        volume_row(louder, rows) <= volume_row(value, rows),
        rows == 7 ==> tempo_row(0, rows) == 3,
        rows == 7 ==> volume_row(500, rows) == 3,
{
    let d = |r: int| crate::text::max_of(crate::text::min_of(r, 100_000), -100_000);
    let k = rows - 1;
    assert(2 * (100_000 - d(faster)) * k <= 2 * (100_000 - d(rate)) * k) by (nonlinear_arith)
        requires
            d(rate) <= d(faster),
            k >= 0,
    ;
    let v = |x: int| crate::text::max_of(crate::text::min_of(x, 1000), 0);
    assert(2 * (1000 - v(louder)) * k <= 2 * (1000 - v(value)) * k) by (nonlinear_arith)
        requires
            v(value) <= v(louder),
            k >= 0,
    ;
}

/// More cells light up for a louder level: none for silence, all of them for a full
/// one.
pub proof fn levels_light_up(level: nat, louder: nat, rows: nat)
    requires
        level <= louder,
    ensures
        0 <= vu_cells(level, rows) <= vu_cells(louder, rows) <= rows,
        vu_cells(0, rows) == 0,
        level >= 1000 ==> vu_cells(level, rows) == rows,
{
    assert(12 * level * rows <= 12 * louder * rows) by (nonlinear_arith)
        requires
            level <= louder,
    ;
    assert(12 * 0 * rows == 0) by (nonlinear_arith);
    if level >= 1000 {
        assert(12 * level * rows >= 12_000 * rows) by (nonlinear_arith)
            requires
                level >= 1000,
        ;
    }
}

/// The playhead moves to the right as time goes on, from the left edge to the end.
pub proof fn playhead_moves_right(time: nat, later: nat, total: nat, w: nat)
    requires
        time <= later,
        total > 0,
    ensures
        playhead(0, total, w) == 0,
        playhead(time, total, w) <= playhead(later, total, w),
        playhead(total, total, w) == w,
        time < total && w > 0 ==> playhead(time, total, w) < w,
        playhead(time, total, w) * total <= time * w,
        time * w < (playhead(time, total, w) + 1) * total,
{
    let t = total as int;
    let a = (time * w) as int;
    let b = (later * w) as int;
    assert(a <= b) by (nonlinear_arith)
        requires
            a == time * w,
            b == later * w,
            time <= later,
    ;
    assert(a / t <= b / t) by (nonlinear_arith)
        requires
            a <= b,
            t > 0,
    ;
    assert((t * w) / t == w) by (nonlinear_arith)
        requires
            t > 0,
    ;
    assert(0 * w == 0);
    assert(0int / t == 0) by (nonlinear_arith)
        requires
            t > 0,
    ;
    assert((a / t) * t <= a < (a / t + 1) * t) by (nonlinear_arith)
        requires
            t > 0,
    ;
    if time < total && w > 0 {
        let q = a / t;
        assert(q < w) by (nonlinear_arith)
            requires
                q * t <= a,
                a == time * w,
                time < t,
                w > 0,
                t > 0,
        ;
    }
}

/// Exactly the column of the playhead is lit on a waveform; what was played is dark,
/// what comes is white.
pub proof fn waveform_is_lit_at_the_playhead(
    peaks: Seq<i32>,
    time: nat,
    total: nat,
    w: nat,
    col: int,
)
    ensures
        wave_cell(peaks, time, total, w, col).1.fg == Some(Color::Cyan) <==> col == playhead(
            time,
            total,
            w,
        ),
        wave_cell(peaks, time, total, w, col).1.fg == Some(Color::DarkGray) <==> col < playhead(
            time,
            total,
            w,
        ),
        wave_cell(peaks, time, total, w, col).1.fg == Some(Color::White) <==> col > playhead(
            time,
            total,
            w,
        ),
{
}

/// A louder peak stands no lower, on the scale it is drawn on.
pub proof fn louder_is_higher(a: int, b: int, steps: int)
    requires
        a <= b,
        steps > 0,
    ensures
        0 <= step_of(a, steps) <= step_of(b, steps) < steps,
        a <= 0 ==> step_of(a, steps) == 0,
        b >= 1000 ==> step_of(b, steps) == steps - 1,
{
    assert(a * steps <= b * steps) by (nonlinear_arith)
        requires
            a <= b,
            steps > 0,
    ;
    if a <= 0 {
        assert(a * steps <= 0) by (nonlinear_arith)
            requires
                a <= 0,
                steps > 0,
        ;
    }
    if b >= 1000 {
        assert(b * steps >= 1000 * steps) by (nonlinear_arith)
            requires
                b >= 1000,
                steps > 0,
        ;
    }
}

/// The handle of the crossfader moves to the right with the fader, from edge to
/// edge, and is the only mark on its meter.
pub proof fn crossfader_moves_right(a: int, b: int, w: nat, j: int)
    requires
        a <= b,
        w > 0,
        0 <= j < w,
    ensures
        crossfader_column(a, w) <= crossfader_column(b, w),
        a <= 0 ==> crossfader_column(a, w) == 0,
        b >= 1_000_000 ==> crossfader_column(b, w) == w - 1,
        crossfader_bar(a, w)[j] == '║' <==> j == crossfader_column(a, w),
        crossfader_bar(a, w).len() == w,
{
    assert(w * a <= w * b) by (nonlinear_arith)
        requires
            a <= b,
            w > 0,
    ;
    if a <= 0 {
        assert(w * a <= 0) by (nonlinear_arith)
            requires
                a <= 0,
                w > 0,
        ;
    }
    if b >= 1_000_000 {
        assert(w * b >= w * 1_000_000) by (nonlinear_arith)
            requires
                b >= 1_000_000,
                w > 0,
        ;
    }
}

/// The needle of the phase meter stands right of the middle for a positive phase
/// and left of it for a negative one, further out for a larger one; it shows for
/// more than 3 ms.
pub proof fn needle_shows_the_side(us: int, more: int, w: nat)
    requires
        us <= more,
        w >= 2,
    ensures
        needle_column(us, w) <= needle_column(more, w),
        us <= 0 ==> needle_column(us, w) <= w / 2,
        us >= 0 ==> needle_column(us, w) >= w / 2 || needle_column(us, w) == w - 1,
        us <= -30_000 ==> needle_column(us, w) == 0,
        us >= 30_000 ==> needle_column(us, w) == w - 1 || needle_column(us, w) == 2 * (w / 2),
        abs(us) <= 3000 ==> !phase_bar(us, w).contains('▼'),
{
    let c = w as int / 2;
    let d = |x: int| crate::text::max_of(crate::text::min_of(x, 30_000), -30_000);
    assert(d(us) * c <= d(more) * c) by (nonlinear_arith)
        requires
            d(us) <= d(more),
            c >= 0,
    ;
    if us <= 0 {
        assert(d(us) * c <= 0) by (nonlinear_arith)
            requires
                d(us) <= 0,
                c >= 0,
        ;
    }
    if us >= 0 {
        assert(d(us) * c >= 0) by (nonlinear_arith)
            requires
                d(us) >= 0,
                c >= 0,
        ;
    }
    if us <= -30_000 {
        assert(d(us) * c == -30_000 * c);
    }
    if us >= 30_000 {
        assert(d(us) * c == 30_000 * c);
    }
    if abs(us) <= 3000 {
        assert forall|j: int| 0 <= j < w implies phase_bar(us, w)[j] != '▼' by {}
    }
}

/// Each hot cue has a dot before its number, filled where it is set.
pub proof fn cue_dots_show_what_is_set(cues: [bool; 4], k: int)
    requires
        0 <= k < 4,
    ensures
        cue_dots(cues).len() == 18,
        cue_dots(cues)[5 * k] == '●' <==> cues@[k],
        cue_dots(cues)[5 * k] == '○' <==> !cues@[k],
        digits_value(seq![cue_dots(cues)[5 * k + 2]]) == k + 1,
{
    reveal_strlit("● ");
    reveal_strlit("○ ");
    reveal_strlit("  ");
    reveal_strlit("1");
    reveal_strlit("2");
    reveal_strlit("3");
    reveal_strlit("4");
    assert("● "@.len() == 2 && "○ "@.len() == 2 && "  "@.len() == 2);
    assert("1"@.len() == 1 && "2"@.len() == 1 && "3"@.len() == 1 && "4"@.len() == 1);
    decimal_reads_back(1);
    decimal_reads_back(2);
    decimal_reads_back(3);
    decimal_reads_back(4);
    assert(seq!['1'] =~= decimal(1));
    assert(seq!['2'] =~= decimal(2));
    assert(seq!['3'] =~= decimal(3));
    assert(seq!['4'] =~= decimal(4));
    let dots = cue_dots(cues);
    if k == 0 {
        assert(dots[2] == '1');
    } else if k == 1 {
        assert(dots[7] == '2');
    } else if k == 2 {
        assert(dots[12] == '3');
    } else {
        assert(dots[17] == '4');
    }
}

/// Tempos give the same points in either order; equal tempos, and one double the
/// other, give all of them, and never more than that can be had.
pub proof fn tempo_points_are_fair(a: int, b: int)
    requires
        0 < a,
        0 < b,
    ensures
        tempo_points(a, b) == tempo_points(b, a),
        0 <= tempo_points(a, b) <= 50,
        tempo_points(a, a) == 50,
        tempo_points(a, 2 * a) == 50,
{
    let high = crate::text::max_of(a, b);
    let low = crate::text::min_of(a, b);
    let base = if 10 * high > 18 * low {
        2 * low
    } else {
        low
    };
    let off = abs(high - base) as int;
    if 10 * off < base {
        let p = 50 * base - 500 * off;
        assert(0 <= p / base <= 50) by (nonlinear_arith)
            requires
                0 <= p <= 50 * base,
                base > 0,
        ;
    }
    assert((50 * a) / a == 50) by (nonlinear_arith)
        requires
            a > 0,
    ;
    let t = 2 * a;
    assert((50 * t) / t == 50) by (nonlinear_arith)
        requires
            t > 0,
    ;
}

/// A tempo further off gives no more points than a nearer one.
pub proof fn nearer_tempos_give_more(a: int, near: int, far: int)
    requires
        0 < a <= near <= far,
        10 * far <= 18 * a,
    ensures
        tempo_points(a, far) <= tempo_points(a, near),
        10 * (near - a) < a ==> tempo_points(a, near) == 50 - (500 * (near - a) + a - 1) / a,
{
    let p = 50 * a - 500 * (near - a);
    let q = 50 * a - 500 * (far - a);
    assert(q / a <= p / a) by (nonlinear_arith)
        requires
            q <= p,
            a > 0,
    ;
    if 10 * (near - a) < a {
        let m = 500 * (near - a);
        assert((50 * a - m) / a == 50 - (m + a - 1) / a) by (nonlinear_arith)
            requires
                a > 0,
                0 <= m,
        ;
        assert(p / a >= 0) by (nonlinear_arith)
            requires
                p >= 0,
                a > 0,
        ;
    }
}

/// A key further round the wheel gives no more points than a nearer one; the same
/// key gives all of them.
pub proof fn nearer_keys_give_more(near: nat, far: nat)
    requires
        near <= far,
    ensures
        0 <= key_points(far) <= key_points(near) <= 50,
        key_points(0) == 50,
        near < far && key_points(near) > 0 ==> key_points(far) < key_points(near),
{
}

/// Two tracks fit each other as well in either order, between 0 and 100 percent; a
/// track fits itself fully.
pub proof fn fit_is_mutual(
    bpm: Option<u32>,
    key: Option<Seq<char>>,
    next_bpm: Option<u32>,
    next_key: Option<Seq<char>>,
)
    ensures
        compat_percent(bpm, key, next_bpm, next_key) == compat_percent(
            next_bpm,
            next_key,
            bpm,
            key,
        ),
        0 <= compat_percent(bpm, key, next_bpm, next_key) <= 100,
        (bpm matches Some(b) && b > 0) && (key matches Some(k) && crate::compat::camelot(k) is Some)
            ==> compat_percent(bpm, key, bpm, key) == 100,
{
    if let (Some(a), Some(b)) = (bpm, next_bpm) {
        if a > 0 && b > 0 {
            tempo_points_are_fair(a as int, b as int);
        }
    }
    if let (Some(a), Some(b)) = (key, next_key) {
        crate::compat::key_distance_is_symmetric(a, b);
        nearer_keys_give_more(0, key_distance(a, b));
    }
    if let Some(k) = key {
        crate::compat::key_distance_is_symmetric(k, k);
    }
    if let Some(b) = bpm {
        if b > 0 {
            tempo_points_are_fair(b as int, b as int);
        }
    }
}

/// How good a colour is.
pub open spec fn goodness(c: Color) -> int {
    match c {
        Color::Green => 2,
        Color::Yellow => 1,
        _ => 0,
    }
}

/// A better fit never has a worse colour; a full one is green, none is red.
pub proof fn better_fit_is_greener(a: int, b: int)
    requires
        a <= b,
    ensures
        goodness(compat_color(a)) <= goodness(compat_color(b)),
        compat_color(100) == Color::Green,
        compat_color(0) == Color::Red,
{
}

/// A text ends in another one.
pub open spec fn holds_at(s: Seq<char>, part: Seq<char>, at: int) -> bool {
    0 <= at && at + part.len() <= s.len() && s.subrange(at, at + part.len()) == part
}

/// The rank before a track counts from one, and behind it stands the percentage.
pub proof fn ranks_read_back(rank: nat, percent: nat)
    requires
        1 <= rank <= 99,
        percent <= 100,
    ensures
        ({
            let text = rank_text(rank, percent);
            &&& text.len() == 9
            &&& digits_value(
                text.subrange(
                    if rank < 10 {
                        1
                    } else {
                        0
                    },
                    2,
                ),
            ) == rank
            &&& digits_value(
                text.subrange(
                    if percent < 10 {
                        6
                    } else if percent < 100 {
                        5
                    } else {
                        4
                    },
                    7,
                ),
            ) == percent
            &&& text[7] == '%'
        }),
{
    reveal_strlit("  ");
    reveal_strlit("% ");
    decimal_reads_back(rank);
    decimal_reads_back(percent);
    let text = rank_text(rank, percent);
    assert("  "@.len() == 2 && "% "@.len() == 2);
    assert(text.subrange(
        if rank < 10 {
            1
        } else {
            0
        },
        2,
    ) =~= decimal(rank));
    assert(text.subrange(
        if percent < 10 {
            6
        } else if percent < 100 {
            5
        } else {
            4
        },
        7,
    ) =~= decimal(percent));
}

/// A row of the queue is of the track at its place: it starts with its rank, counted
/// from one, and how well it follows the track before it, or what plays; its colour
/// says the same.
pub proof fn queue_rows_are_of_their_track(info: NowPlaying, idx: int, in_flight: bool, cw: nat)
    requires
        0 <= idx < info.queue@.len(),
        idx < 99,
    ensures
        ({
            let (color, text) = queue_item(info, idx, in_flight, cw);
            let percent = queue_percent(info, idx);
            &&& 0 <= percent <= 100
            &&& color == compat_color(percent)
            &&& text.len() >= 9
            &&& text.take(9) == rank_text((idx + 1) as nat, percent as nat)
            &&& exists|at: int|
                #[trigger] holds_at(text, crate::track::bpm_slash_key(info.queue@[idx]), at)
        }),
        idx > 0 ==> queue_percent(info, idx) == compat_percent(
            info.queue@[idx - 1].bpm,
            crate::compat::key_view(info.queue@[idx - 1].key),
            info.queue@[idx].bpm,
            crate::compat::key_view(info.queue@[idx].key),
        ),
{
    let (color, text) = queue_item(info, idx, in_flight, cw);
    let percent = queue_percent(info, idx);
    let t = info.queue@[idx];
    if idx == 0 {
        fit_is_mutual(
            info.playing_bpm,
            match info.playing_track {
                Some(p) => crate::compat::key_view(p.key),
                None => None,
            },
            t.bpm,
            crate::compat::key_view(t.key),
        );
    } else {
        let p = info.queue@[idx - 1];
        fit_is_mutual(
            p.bpm,
            crate::compat::key_view(p.key),
            t.bpm,
            crate::compat::key_view(t.key),
        );
    }
    ranks_read_back((idx + 1) as nat, percent as nat);
    let rank = rank_text((idx + 1) as nat, percent as nat);
    let name = crate::text::ellipsis(
        crate::track::track_name(t),
        crate::text::minus(cw as int, crate::panels::queue_overhead(idx, in_flight)),
    );
    let part = crate::track::bpm_slash_key(t);
    reveal_strlit(" ");
    assert(" "@.len() == 1);
    assert(text.take(9) =~= rank);
    let at = (9 + name.len() + 1) as int;
    assert(text.subrange(at, at + part.len()) =~= part);
    assert(holds_at(text, part, at));
}

/// How many tracks a list leaves out is what its last row says.
pub proof fn left_out_tracks_are_counted(n: nat)
    ensures
        more_text(n).len() >= 8,
        digits_value(more_text(n).subrange(2, more_text(n).len() - 5)) == n,
{
    reveal_strlit("… ");
    reveal_strlit(" more");
    decimal_reads_back(n);
    assert("… "@.len() == 2 && " more"@.len() == 5);
    assert(more_text(n).subrange(2, more_text(n).len() - 5) =~= decimal(n));
}

/// A faster track stands no lower in the trend.
pub proof fn trend_rises_with_tempo(bpms: Seq<u32>, i: int, j: int)
    requires
        0 <= i < bpms.len(),
        0 <= j < bpms.len(),
        bpms[i] <= bpms[j],
    ensures
        trend(bpms).len() == bpms.len(),
        exists|a: int, b: int|
            0 <= a <= b <= 7 && trend(bpms)[i] == #[trigger] crate::meters::SPARK@[a]
                && trend(bpms)[j] == #[trigger] crate::meters::SPARK@[b],
{
    crate::panels::trend_is_on_scale(bpms, i);
    crate::panels::trend_is_on_scale(bpms, j);
    let low = crate::panels::lowest(bpms);
    let range = max_of(crate::panels::highest(bpms) - low, 1000);
    let x = (bpms[i] - low) * 7;
    let y = (bpms[j] - low) * 7;
    assert(x / range <= y / range) by (nonlinear_arith)
        requires
            x <= y,
            range > 0,
    ;
    assert(trend(bpms)[i] == crate::meters::SPARK@[x / range]);
    assert(trend(bpms)[j] == crate::meters::SPARK@[y / range]);
}

/// The bars until a mix are all the bars that have begun by then, at the tempo that
/// plays.
pub proof fn bars_until_mix_are_counted(ms: nat, bpm: u32)
    ensures
        ({
            let n = bars_until(ms, Some(bpm));
            &&& ms * bpm <= n * 240_000_000
            &&& n > 0 ==> (n - 1) * 240_000_000 < ms * bpm
        }),
        ms == 0 ==> bars_until(ms, Some(bpm)) == 0,
{
    if ms == 0 {
        assert(0 * (bpm as nat) == 0);
    }
}

/// The countdown to a mix reads the bars until it, and says that the mix comes next
/// or now when there is no whole bar left.
pub proof fn countdown_reads_the_bars(ms: nat, bpm: Option<u32>)
    ensures
        ({
            let n = bars_until(ms, bpm);
            let text = mix_label(ms, bpm);
            &&& 1 < n <= 0x7fff_ffff ==> text.len() >= 13 && digits_value(
                text.subrange(7, text.len() - 5),
            ) == n
            &&& n <= 1 && ms > 1000 ==> text == "MIX NEXT BAR"@
            &&& n <= 1 && ms <= 1000 ==> text == "MIX NOW"@
        }),
{
    reveal_strlit("MIX IN ");
    reveal_strlit(" bars");
    let n = bars_until(ms, bpm);
    decimal_reads_back(n);
    assert("MIX IN "@.len() == 7 && " bars"@.len() == 5);
    if 1 < n <= 0x7fff_ffff {
        assert(mix_label(ms, bpm).subrange(7, mix_label(ms, bpm).len() - 5) =~= decimal(n));
    }
}

/// A countdown shows only while the mix lies ahead, and during a mix its name does.
pub proof fn status_says_what_runs(info: NowPlaying)
    ensures
        info.crossfading ==> (mix_status(info) matches Some(text) && text.len()
            >= info.transition_type_name@.len() && text.take(
            info.transition_type_name@.len() as int,
        ) == info.transition_type_name@),
        !info.crossfading ==> (mix_status(info) is Some <==> (info.mix_point_ms matches Some(m) && m
            > info.playing_time_ms)),
        info.crossfading ==> (mix_status(info) matches Some(text) && digits_value(
            seq![text.last()],
        ) == beats_left(info.transition_bars as nat, info.fader_sweep as int) % 4),
{
    if info.crossfading {
        let text = mix_status(info)->0;
        let name = info.transition_type_name@;
        assert(text.take(name.len() as int) =~= name);
        let left = beats_left(info.transition_bars as nat, info.fader_sweep as int);
        crate::control_rows::countdown_runs_down(
            info.transition_bars as nat,
            info.fader_sweep as int,
            info.fader_sweep as int,
        );
        decimal_reads_back((left % 4) as nat);
        assert(seq![text.last()] =~= decimal((left % 4) as nat));
    }
}

/// The first track of the queue is held against what plays, and only it is marked as
/// the next one.
pub proof fn first_in_queue_follows_what_plays(info: NowPlaying, idx: int, in_flight: bool)
    requires
        0 <= idx < info.queue@.len(),
    ensures
        info.playing_track matches Some(p) ==> queue_percent(info, 0) == compat_percent(
            info.playing_bpm,
            crate::compat::key_view(p.key),
            info.queue@[0].bpm,
            crate::compat::key_view(info.queue@[0].key),
        ),
        queue_status(idx, in_flight).len() > 0 <==> idx == 0,
        queue_status(0, false) == " next"@,
{
    reveal_strlit(" next");
    reveal_strlit(" ⟳");
    reveal_strlit("");
    assert(" next"@.len() == 5 && " ⟳"@.len() == 2 && ""@.len() == 0);
}

/// The lowest and the highest tempo of a list are the bounds of all of them, and
/// among them.
pub proof fn bounds_hold_all_tempos(bpms: Seq<u32>, i: int)
    requires
        0 <= i < bpms.len(),
    ensures
        lowest(bpms) <= bpms[i] <= highest(bpms),
        exists|j: int| 0 <= j < bpms.len() && #[trigger] bpms[j] == lowest(bpms),
        exists|j: int| 0 <= j < bpms.len() && #[trigger] bpms[j] == highest(bpms),
    decreases bpms.len(),
{
    if bpms.len() > 1 {
        let rest = bpms.drop_last();
        bounds_hold_all_tempos(
            rest,
            if i < rest.len() {
                i
            } else {
                0
            },
        );
        let l = choose|j: int| 0 <= j < rest.len() && #[trigger] rest[j] == lowest(rest);
        let h = choose|j: int| 0 <= j < rest.len() && #[trigger] rest[j] == highest(rest);
        assert(bpms[l] == lowest(rest));
        assert(bpms[h] == highest(rest));
        assert(bpms[bpms.len() - 1] == bpms.last());
    } else {
        assert(bpms[0] == lowest(bpms));
    }
}

} // verus!
