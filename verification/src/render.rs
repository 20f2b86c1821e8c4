//! The text that presents a launch.
//!
//! A launch is written as three lines: its name, its liftoff, its
//! broadcasts. The extended form adds the rocket and the missions, one line
//! each, after those three, and changes nothing in them.

use vstd::prelude::*;
use vstd::string::*;
use crate::chrono_calls::{local_rfc2822, utc_now, RFC2822_FIRST, RFC2822_LAST};
use crate::duration::{duration_display, duration_text};
use crate::launch::{texts, Launch, LaunchView, Launches, Mission, MissionView};
use crate::palette::{painted, Palette, PaletteView};
use crate::text::{append_decimal, append_integer, decimal, integer};
use crate::timestamp::Instant;
use crate::units::{whole, whole_minutes, MINUTE, SECOND_NANOS};

verus! {

/// How much of a launch is written.
#[derive(Clone, Copy, Debug, PartialEq, Eq, Structural)]
pub enum Mode {
    /// Name, liftoff and broadcasts.
    Compact,
    /// The same, then the rocket and the missions.
    Extended,
}

/// The first line: the word `Launch` and the name.
pub open spec fn header_line(name: Seq<char>, palette: PaletteView) -> Seq<char> {
    painted(palette.title, "Launch"@) + " "@ + name + "\n"@
}

/// The whole minutes from `start` to `end`, counted towards zero.
pub open spec fn window_minutes(start: int, end: int) -> int {
    whole(whole(end - start, SECOND_NANOS as int), MINUTE as int)
}

/// What the liftoff line says of the launch window: that there is none where
/// it opens and closes at one instant, its whole minutes elsewhere.
pub open spec fn window_note(start: int, end: int) -> Seq<char> {
    if start == end {
        " instantaneous"@
    } else {
        " "@ + integer(window_minutes(start, end)) + "m window"@
    }
}

/// The mark of a liftoff time that is not settled: there where `tbdtime` is
/// 1, and for no other number.
pub open spec fn badge_note(tbdtime: nat, palette: PaletteView) -> Seq<char> {
    if tbdtime == 1 {
        " "@ + painted(palette.badge, "TBD"@)
    } else {
        Seq::empty()
    }
}

/// The second line: the liftoff as `when` words it, the launch window, the
/// time from liftoff to `now`, and the mark of an unsettled time.
pub open spec fn liftoff_line(
    launch: LaunchView,
    when: Seq<char>,
    now: int,
    palette: PaletteView,
) -> Seq<char> {
    painted(palette.label, "Liftoff:"@) + " "@ + when + window_note(
        launch.isostart,
        launch.isoend,
    ) + " "@ + painted(
        palette.countdown,
        duration_text(whole(now - launch.isonet, SECOND_NANOS as int)),
    ) + badge_note(launch.tbdtime, palette) + "\n"@
}

/// Each of `urls` with a space in front of it, in order.
pub open spec fn spaced(urls: Seq<Seq<char>>) -> Seq<char>
    decreases urls.len(),
{
    if urls.len() == 0 {
        Seq::empty()
    } else {
        spaced(urls.drop_last()) + " "@ + urls.last()
    }
}

/// The third line: the broadcasts, or that none is known.
pub open spec fn broadcasts_line(urls: Seq<Seq<char>>, palette: PaletteView) -> Seq<char> {
    painted(palette.label, "Broadcasts:"@) + (if urls.len() == 0 {
        " TBD / Unavailable"@
    } else {
        spaced(urls)
    }) + "\n"@
}

/// The three lines of the compact form.
pub open spec fn compact_text(
    launch: LaunchView,
    when: Seq<char>,
    now: int,
    palette: PaletteView,
) -> Seq<char> {
    header_line(launch.name, palette) + liftoff_line(launch, when, now, palette)
        + broadcasts_line(launch.vid_urls, palette)
}

/// The line of the rocket.
pub open spec fn rocket_line(name: Seq<char>, palette: PaletteView) -> Seq<char> {
    painted(palette.label, "Rocket:"@) + " "@ + name + "\n"@
}

/// The line that stands above the missions.
pub open spec fn missions_header(palette: PaletteView) -> Seq<char> {
    painted(palette.label, "Missions:"@) + "\n"@
}

/// The line of the mission with the number `number`.
pub open spec fn mission_line(number: nat, mission: MissionView, palette: PaletteView) -> Seq<
    char,
> {
    painted(palette.title, decimal(number) + ") ["@ + mission.type_label + "]"@) + " "@
        + mission.description + "\n"@
}

/// The lines of `missions`, numbered from 1 in their order.
pub open spec fn mission_lines(missions: Seq<MissionView>, palette: PaletteView) -> Seq<char>
    decreases missions.len(),
{
    if missions.len() == 0 {
        Seq::empty()
    } else {
        mission_lines(missions.drop_last(), palette) + mission_line(
            missions.len(),
            missions.last(),
            palette,
        )
    }
}

/// What the extended form adds to the compact one.
pub open spec fn extension_text(launch: LaunchView, palette: PaletteView) -> Seq<char> {
    rocket_line(launch.rocket.name, palette) + missions_header(palette) + mission_lines(
        launch.missions,
        palette,
    )
}

/// The text of a launch: `when` is the liftoff in words, `now` the instant
/// from which the time to liftoff is counted, in nanoseconds since 1970.
pub open spec fn render_text(
    launch: LaunchView,
    mode: Mode,
    when: Seq<char>,
    now: int,
    palette: PaletteView,
) -> Seq<char> {
    match mode {
        Mode::Compact => compact_text(launch, when, now, palette),
        Mode::Extended => compact_text(launch, when, now, palette) + extension_text(
            launch,
            palette,
        ),
    }
}

/// Whether the liftoff of `launch` can be worded in the time of every zone:
/// it lies in a year from 0 to 9999 wherever the machine stands.
pub open spec fn can_display(launch: LaunchView) -> bool {
    RFC2822_FIRST <= launch.isonet / (SECOND_NANOS as int) <= RFC2822_LAST
}

/// Whether `text` is `launch` written in form `mode` with `palette`, for
/// some wording of the liftoff and some instant from which time is counted.
pub open spec fn is_rendering(
    text: Seq<char>,
    launch: LaunchView,
    mode: Mode,
    palette: PaletteView,
) -> bool {
    exists|when: Seq<char>, now: int| text == #[trigger] render_text(launch, mode, when, now, palette)
}

/// What `display` hands out for `launch`: a rendering where the liftoff can
/// be worded, nothing where it cannot.
pub open spec fn is_display(
    text: Option<String>,
    launch: LaunchView,
    mode: Mode,
    palette: PaletteView,
) -> bool {
    &&& text is Some <==> can_display(launch)
    &&& text matches Some(t) ==> is_rendering(t@, launch, mode, palette)
}

/// Appends the first line.
fn append_header(out: &mut String, launch: &Launch, palette: &Palette)
    ensures
        final(out)@ == old(out)@ + header_line(launch@.name, palette@),
{
    palette.title.paint(out, "Launch");
    out.append(" ");
    out.append(launch.name.as_str());
    out.append("\n");
}

/// Appends what the liftoff line says of the launch window.
fn append_window(out: &mut String, start: &Instant, end: &Instant)
    ensures
        final(out)@ == old(out)@ + window_note(start@, end@),
{
    if start.same(end) {
        out.append(" instantaneous");
    } else {
        let minutes = whole_minutes(end.seconds_since(start));
        out.append(" ");
        append_integer(out, minutes);
        out.append("m window");
    }
}

/// Appends the second line.
fn append_liftoff(out: &mut String, launch: &Launch, when: &str, now: &Instant, palette: &Palette)
    ensures
        final(out)@ == old(out)@ + liftoff_line(launch@, when@, now@, palette@),
{
    palette.label.paint(out, "Liftoff:");
    out.append(" ");
    out.append(when);
    append_window(out, &launch.isostart, &launch.isoend);
    out.append(" ");
    let countdown = duration_display(now.seconds_since(&launch.isonet));
    palette.countdown.paint(out, countdown.as_str());
    if launch.tbdtime == 1 {
        out.append(" ");
        palette.badge.paint(out, "TBD");
    }
    out.append("\n");
}

/// Appends each of `urls` with a space in front of it.
fn append_spaced(out: &mut String, urls: &Vec<String>)
    ensures
        final(out)@ == old(out)@ + spaced(texts(urls@)),
{
    let ghost all = texts(urls@);
    let mut i: usize = 0;
    while i < urls.len()
        invariant
            i <= urls.len(),
            all == texts(urls@),
            out@ == old(out)@ + spaced(all.take(i as int)),
        decreases urls.len() - i,
    {
        out.append(" ");
        out.append(urls[i].as_str());
        assert(all.take(i + 1).drop_last() =~= all.take(i as int));
        i += 1;
    }
    assert(all.take(i as int) =~= all);
}

/// Appends the third line.
fn append_broadcasts(out: &mut String, launch: &Launch, palette: &Palette)
    ensures
        final(out)@ == old(out)@ + broadcasts_line(launch@.vid_urls, palette@),
{
    palette.label.paint(out, "Broadcasts:");
    if launch.vid_urls.len() == 0 {
        out.append(" TBD / Unavailable");
    } else {
        append_spaced(out, &launch.vid_urls);
    }
    out.append("\n");
}

/// Appends the line of the mission with the number `number`.
fn append_mission(out: &mut String, number: usize, mission: &Mission, palette: &Palette)
    ensures
        final(out)@ == old(out)@ + mission_line(number as nat, mission@, palette@),
{
    let mut title = String::new();
    append_decimal(&mut title, number as u64);
    title.append(") [");
    title.append(mission.type_label.as_str());
    title.append("]");
    assert(title@ =~= decimal(number as nat) + ") ["@ + mission@.type_label + "]"@);
    palette.title.paint(out, title.as_str());
    out.append(" ");
    out.append(mission.description.as_str());
    out.append("\n");
}

/// Appends the lines of the rocket and of the missions.
fn append_extension(out: &mut String, launch: &Launch, palette: &Palette)
    ensures
        final(out)@ == old(out)@ + extension_text(launch@, palette@),
{
    palette.label.paint(out, "Rocket:");
    out.append(" ");
    out.append(launch.rocket.name.as_str());
    out.append("\n");
    palette.label.paint(out, "Missions:");
    out.append("\n");
    let ghost head = old(out)@ + rocket_line(launch@.rocket.name, palette@) + missions_header(
        palette@,
    );
    let ghost all = launch@.missions;
    let mut i: usize = 0;
    while i < launch.missions.len()
        invariant
            i <= launch.missions.len(),
            all == launch@.missions,
            out@ == head + mission_lines(all.take(i as int), palette@),
        decreases launch.missions.len() - i,
    {
        append_mission(out, i + 1, &launch.missions[i], palette);
        assert(all.take(i + 1).drop_last() =~= all.take(i as int));
        i += 1;
    }
    assert(all.take(i as int) =~= all);
}

impl Launch {
    /// Writes the launch.
    ///
    /// `when` is the liftoff in words, written after `Liftoff:` as it is;
    /// `now` is the instant from which the time to or since liftoff is
    /// counted.
    pub fn render(&self, mode: Mode, when: &str, now: &Instant, palette: &Palette) -> (text:
        String)
        ensures
            text@ == render_text(self@, mode, when@, now@, palette@),
    {
        let mut text = String::new();
        append_header(&mut text, self, palette);
        append_liftoff(&mut text, self, when, now, palette);
        append_broadcasts(&mut text, self, palette);
        match mode {
            Mode::Compact => {},
            Mode::Extended => {
                append_extension(&mut text, self, palette);
            },
        }
        text
    }

    /// Writes the launch as it stands at this moment on this machine: the
    /// liftoff is worded in the local time of the machine, as RFC 2822 has
    /// it, and the time to or since liftoff is counted from the reading of
    /// the system clock.
    ///
    /// Hands out nothing where the liftoff is so close to the year 0 or to
    /// the year 9999 that some time zone has it in a year that RFC 2822
    /// cannot write.
    pub fn display(&self, mode: Mode, palette: &Palette) -> (text: Option<String>)
        ensures
            is_display(text, self@, mode, palette@),
    {
        let second = self.isonet.timestamp();
        if second < RFC2822_FIRST || second > RFC2822_LAST {
            return None;
        }
        let when = local_rfc2822(second);
        let (seconds, nanos) = utc_now();
        match Instant::from_timestamp(seconds, nanos) {
            Some(now) => {
                let text = self.render(mode, when.as_str(), &now, palette);
                Some(text)
            },
            None => None,
        }
    }
}

impl Launches {
    /// Writes every launch of the collection as `Launch::display` does, in
    /// the order of the collection.
    pub fn display(&self, mode: Mode, palette: &Palette) -> (texts: Vec<Option<String>>)
        ensures
            texts@.len() == self@.launches.len(),
            forall|i: int|
                0 <= i < texts@.len() ==> is_display(
                    #[trigger] texts@[i],
                    self@.launches[i],
                    mode,
                    palette@,
                ),
    {
        let mut texts: Vec<Option<String>> = Vec::new();
        let mut i: usize = 0;
        while i < self.launches.len()
            invariant
                i <= self.launches.len(),
                texts@.len() == i,
                forall|k: int|
                    0 <= k < i ==> is_display(
                        #[trigger] texts@[k],
                        self@.launches[k],
                        mode,
                        palette@,
                    ),
            decreases self.launches.len() - i,
        {
            let text = self.launches[i].display(mode, palette);
            texts.push(text);
            i += 1;
        }
        texts
    }
}

} // verus!
