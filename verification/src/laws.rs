//! What holds of every timestamp and of every rendered launch.

use vstd::prelude::*;
use vstd::string::*;
use crate::duration::duration_text;
use crate::launch::LaunchView;
use crate::palette::{painted, plain_palette, PaletteView};
use crate::render::{
    badge_note, broadcasts_line, extension_text, header_line, liftoff_line, render_text, spaced,
    window_minutes, window_note, Mode,
};
use crate::text::{contains, decimal, digit, ends_with, integer, is_line};
use crate::timestamp::{is_digit, is_timestamp};
use crate::units::{left_over, magnitude, whole, DAY, MINUTE, SECOND_NANOS};

verus! {

/// Only the one shape is read as a timestamp: a text that is not sixteen
/// characters long, that has another character than `T` after the date or
/// than `Z` at the end, a lowercase letter too, or that has anything but a
/// digit in another place, is none, so that decoding it fails.
pub proof fn lemma_shape_is_strict(s: Seq<char>, at: int)
    ensures
        s.len() != 16 ==> !is_timestamp(s),
        s.len() == 16 && s[8] != 'T' ==> !is_timestamp(s),
        s.len() == 16 && s[15] != 'Z' ==> !is_timestamp(s),
        s.len() == 16 && 0 <= at < 15 && at != 8 && !is_digit(s[at]) ==> !is_timestamp(s),
{
}

/// A part stands in every text that is built round it.
pub proof fn lemma_contains_middle(before: Seq<char>, part: Seq<char>, after: Seq<char>)
    ensures
        contains(before + part + after, part),
{
    let text = before + part + after;
    let at = before.len() as int;
    assert(text.subrange(at, at + part.len()) =~= part);
}

/// The liftoff line with its parts before, in and after the note on the
/// launch window.
proof fn lemma_liftoff_line_split(
    launch: LaunchView,
    when: Seq<char>,
    now: int,
    palette: PaletteView,
) -> (ends: (Seq<char>, Seq<char>))
    ensures
        liftoff_line(launch, when, now, palette) == ends.0 + window_note(
            launch.isostart,
            launch.isoend,
        ) + ends.1,
{
    let before = painted(palette.label, "Liftoff:"@) + " "@ + when;
    let after = " "@ + painted(
        palette.countdown,
        duration_text(whole(now - launch.isonet, SECOND_NANOS as int)),
    ) + badge_note(launch.tbdtime, palette) + "\n"@;
    (before, after)
}

/// Every rendering of a launch says what its window is: ` instantaneous`
/// where the window opens and closes at one instant, and elsewhere the whole
/// minutes from its opening to its closing, counted towards zero, and
/// `m window`.
pub proof fn lemma_window_is_written(
    launch: LaunchView,
    mode: Mode,
    when: Seq<char>,
    now: int,
    palette: PaletteView,
)
    ensures
        launch.isostart == launch.isoend ==> contains(
            render_text(launch, mode, when, now, palette),
            " instantaneous"@,
        ),
        launch.isostart != launch.isoend ==> contains(
            render_text(launch, mode, when, now, palette),
            integer(window_minutes(launch.isostart, launch.isoend)) + "m window"@,
        ),
{
    let text = render_text(launch, mode, when, now, palette);
    let ends = lemma_liftoff_line_split(launch, when, now, palette);
    let tail = ends.1 + broadcasts_line(launch.vid_urls, palette) + match mode {
        Mode::Compact => Seq::empty(),
        Mode::Extended => extension_text(launch, palette),
    };
    let head = header_line(launch.name, palette) + ends.0;
    let note = window_note(launch.isostart, launch.isoend);
    assert(text =~= head + note + tail);
    if launch.isostart == launch.isoend {
        lemma_contains_middle(head, note, tail);
    } else {
        let part = integer(window_minutes(launch.isostart, launch.isoend)) + "m window"@;
        assert(text =~= (head + " "@) + part + tail);
        lemma_contains_middle(head + " "@, part, tail);
    }
}

/// The length of the first `n` of `urls` when each is written after a space.
pub open spec fn spaced_len(urls: Seq<Seq<char>>, n: int) -> int
    decreases n,
{
    if n <= 0 {
        0
    } else {
        spaced_len(urls, n - 1) + 1 + urls[n - 1].len()
    }
}

/// Writing more of a list after a space each only adds at the end.
proof fn lemma_spaced_take(urls: Seq<Seq<char>>, n: int)
    requires
        0 <= n <= urls.len(),
    ensures
        spaced(urls.take(n)).len() == spaced_len(urls, n),
        n < urls.len() ==> spaced(urls.take(n + 1)) == spaced(urls.take(n)) + " "@ + urls[n],
    decreases n,
{
    reveal_strlit(" ");
    if n > 0 {
        lemma_spaced_take(urls, n - 1);
    }
    if n < urls.len() {
        assert(urls.take(n + 1).drop_last() =~= urls.take(n));
    }
}

/// A list written after a space each starts with each shorter start of it.
proof fn lemma_spaced_prefix(urls: Seq<Seq<char>>, n: int, m: int)
    requires
        0 <= n <= m <= urls.len(),
    ensures
        spaced(urls.take(m)).len() == spaced_len(urls, m),
        spaced(urls.take(n)).len() == spaced_len(urls, n),
        spaced_len(urls, n) <= spaced_len(urls, m),
        spaced(urls.take(m)).subrange(0, spaced_len(urls, n)) == spaced(urls.take(n)),
    decreases m - n,
{
    lemma_spaced_take(urls, n);
    lemma_spaced_take(urls, m);
    if n < m {
        lemma_spaced_prefix(urls, n, m - 1);
        lemma_spaced_take(urls, m - 1);
    }
}

/// The broadcasts are written in the order of the list, each whole and each
/// after one space, and nothing else is written: the `i`-th stands after the
/// ones before it, and the last ends the text.
pub proof fn lemma_spaced_holds_each(urls: Seq<Seq<char>>, i: int)
    requires
        0 <= i < urls.len(),
    ensures
        spaced(urls).len() == spaced_len(urls, urls.len() as int),
        0 <= spaced_len(urls, i) < spaced_len(urls, i + 1) <= spaced(urls).len(),
        spaced(urls)[spaced_len(urls, i)] == ' ',
        spaced(urls).subrange(spaced_len(urls, i) + 1, spaced_len(urls, i + 1)) == urls[i],
{
    reveal_strlit(" ");
    let n = urls.len() as int;
    assert(urls.take(n) =~= urls);
    lemma_spaced_prefix(urls, i + 1, n);
    lemma_spaced_prefix(urls, i, i + 1);
    lemma_spaced_take(urls, i);
    let upto = spaced(urls.take(i + 1));
    assert(spaced(urls)[spaced_len(urls, i)] == upto[spaced_len(urls, i)]);
    assert(spaced(urls).subrange(spaced_len(urls, i) + 1, spaced_len(urls, i + 1)) =~= upto.subrange(
        spaced_len(urls, i) + 1,
        spaced_len(urls, i + 1),
    ));
}

/// Without highlighting, the line of the broadcasts is
/// `Broadcasts: TBD / Unavailable` where no broadcast is known, and
/// `Broadcasts:` with each broadcast after a space where one is.
pub proof fn lemma_broadcasts_line(urls: Seq<Seq<char>>)
    ensures
        urls.len() == 0 ==> broadcasts_line(urls, plain_palette())
            == "Broadcasts: TBD / Unavailable\n"@,
        urls.len() > 0 ==> broadcasts_line(urls, plain_palette()) == "Broadcasts:"@ + spaced(urls)
            + "\n"@,
{
    reveal_strlit("Broadcasts: TBD / Unavailable\n");
    reveal_strlit("Broadcasts:");
    reveal_strlit(" TBD / Unavailable");
    reveal_strlit("\n");
}

/// Every rendering of a launch holds the line of its broadcasts.
pub proof fn lemma_broadcasts_are_written(
    launch: LaunchView,
    mode: Mode,
    when: Seq<char>,
    now: int,
    palette: PaletteView,
)
    ensures
        contains(
            render_text(launch, mode, when, now, palette),
            broadcasts_line(launch.vid_urls, palette),
        ),
{
    let head = header_line(launch.name, palette) + liftoff_line(launch, when, now, palette);
    let tail = match mode {
        Mode::Compact => Seq::empty(),
        Mode::Extended => extension_text(launch, palette),
    };
    let line = broadcasts_line(launch.vid_urls, palette);
    lemma_contains_middle(head, line, tail);
}

/// A line of a text is a line of every text that starts with that text.
pub proof fn lemma_line_of_longer(text: Seq<char>, more: Seq<char>, line: Seq<char>)
    requires
        is_line(text, line),
    ensures
        is_line(text + more, line),
{
    let at = choose|at: int|
        {
            &&& 0 <= at
            &&& at + line.len() < text.len()
            &&& #[trigger] text.subrange(at, at + line.len()) == line
            &&& text[at + line.len()] == '\n'
            &&& (at == 0 || text[at - 1] == '\n')
            &&& !line.contains('\n')
        };
    let longer = text + more;
    assert(longer.subrange(at, at + line.len()) =~= text.subrange(at, at + line.len()));
}

/// The extended form is the compact form and more after it: the compact
/// text ends with a line break and stands unchanged at the start of the
/// extended text, the extended text is longer, and every line of the compact
/// text is a line of the extended text.
pub proof fn lemma_extended_keeps_compact(
    launch: LaunchView,
    when: Seq<char>,
    now: int,
    palette: PaletteView,
    line: Seq<char>,
)
    ensures
        ends_with(render_text(launch, Mode::Compact, when, now, palette), "\n"@),
        render_text(launch, Mode::Extended, when, now, palette) == render_text(
            launch,
            Mode::Compact,
            when,
            now,
            palette,
        ) + extension_text(launch, palette),
        render_text(launch, Mode::Extended, when, now, palette).len() > render_text(
            launch,
            Mode::Compact,
            when,
            now,
            palette,
        ).len(),
        is_line(render_text(launch, Mode::Compact, when, now, palette), line) ==> is_line(
            render_text(launch, Mode::Extended, when, now, palette),
            line,
        ),
{
    reveal_strlit("\n");
    let compact = render_text(launch, Mode::Compact, when, now, palette);
    assert(compact.subrange(compact.len() - 1, compact.len() as int) =~= "\n"@);
    if is_line(compact, line) {
        lemma_line_of_longer(compact, extension_text(launch, palette), line);
    }
}

/// The last character of a numeral is a digit.
proof fn lemma_decimal_ends_in_digit(n: nat)
    ensures
        decimal(n).len() > 0,
        decimal(n).last() == digit((n % 10) as int),
    decreases n,
{
    if n >= 10 {
        lemma_decimal_ends_in_digit(n / 10);
    }
}

/// The text of a span ends in a digit.
proof fn lemma_duration_ends_in_digit(seconds: int)
    ensures
        duration_text(seconds).len() > 0,
        exists|d: int| 0 <= d <= 9 && duration_text(seconds).last() == #[trigger] digit(d),
{
    reveal_strlit("D");
    reveal_strlit("T");
    reveal_strlit(" ");
    reveal_strlit(":");
    reveal_strlit("+");
    reveal_strlit("-");
    let n = if whole(seconds, DAY as int) != 0 {
        magnitude(left_over(whole(seconds, MINUTE as int), 60))
    } else {
        magnitude(left_over(seconds, 60))
    };
    lemma_decimal_ends_in_digit(n);
}

/// The launch with its `tbdtime` set to 0: its time of liftoff counts as
/// settled.
pub open spec fn settled(launch: LaunchView) -> LaunchView {
    LaunchView { tbdtime: 0, ..launch }
}

/// The mark `TBD` is written exactly for a `tbdtime` of 1.
///
/// Whatever the palette: with a `tbdtime` of 1 the liftoff line is the line
/// of the same launch with a settled time, with a space and the mark put
/// before its line break; with any other `tbdtime` it is that line itself.
/// Without highlighting, the liftoff line ends in ` TBD` and a line break
/// for a `tbdtime` of 1 and for no other.
pub proof fn lemma_badge_is_for_one(
    launch: LaunchView,
    when: Seq<char>,
    now: int,
    palette: PaletteView,
)
    ensures
        launch.tbdtime != 1 ==> liftoff_line(launch, when, now, palette) == liftoff_line(
            settled(launch),
            when,
            now,
            palette,
        ),
        launch.tbdtime == 1 ==> liftoff_line(launch, when, now, palette) == liftoff_line(
            settled(launch),
            when,
            now,
            palette,
        ).drop_last() + " "@ + painted(palette.badge, "TBD"@) + "\n"@,
        ends_with(liftoff_line(launch, when, now, plain_palette()), " TBD\n"@) <==> launch.tbdtime
            == 1,
{
    reveal_strlit("\n");
    reveal_strlit(" ");
    reveal_strlit("TBD");
    reveal_strlit(" TBD\n");
    let line = liftoff_line(launch, when, now, plain_palette());
    let mark = " TBD\n"@;
    if launch.tbdtime == 1 {
        assert(line.subrange(line.len() - mark.len(), line.len() as int) =~= mark);
    } else {
        // The line ends in the last digit of the span and the line break,
        // the mark in a `D` and the line break.
        lemma_duration_ends_in_digit(whole(now - launch.isonet, SECOND_NANOS as int));
        if ends_with(line, mark) {
            let tail = line.subrange(line.len() - mark.len(), line.len() as int);
            assert(tail[3] == line[line.len() - 2]);
        }
    }
}

} // verus!
