use chrono::{DateTime, Local, Utc};
use vacuum::chrono_calls::{RFC2822_FIRST, RFC2822_LAST};
use vacuum::duration::duration_display;
use vacuum::launch::{Launch, Launches, Rocket};
use vacuum::palette::Palette;
use vacuum::render::Mode;
use vacuum::timestamp::{deserialize, Instant};

fn launch_at(liftoff: Instant) -> Launch {
    Launch {
        id: 1,
        name: "Electron | Test".to_string(),
        net: String::new(),
        isostart: liftoff,
        isoend: liftoff,
        isonet: liftoff,
        tbddate: 0,
        tbdtime: 0,
        vid_urls: Vec::new(),
        rocket: Rocket { id: 1, name: "Electron".to_string(), configuration: String::new() },
        missions: Vec::new(),
    }
}

fn local_wording(seconds: i64) -> String {
    DateTime::from_timestamp(seconds, 0).unwrap().with_timezone(&Local).to_rfc2822()
}

fn check_display(launch: &Launch, mode: Mode) {
    let before = Utc::now();
    let text = launch.display(mode, &Palette::plain()).unwrap();
    let after = Utc::now();
    let liftoff = DateTime::from_timestamp(launch.isonet.timestamp(), 0).unwrap();
    let wording = local_wording(launch.isonet.timestamp());
    let mut fits = false;
    let first = (before - liftoff).num_seconds();
    let last = (after - liftoff).num_seconds();
    for seconds in first..=last {
        let now = Instant::from_timestamp(launch.isonet.timestamp() + seconds, 0).unwrap();
        if text == launch.render(mode, &wording, &now, &Palette::plain()) {
            assert!(text.contains(&format!(" {}\n", duration_display(seconds))));
            fits = true;
        }
    }
    assert!(fits, "{}", text);
}

#[test]
fn a_past_launch_is_displayed_with_the_time_since() {
    let launch = launch_at(deserialize("20180704T093000Z").unwrap());
    check_display(&launch, Mode::Compact);
    check_display(&launch, Mode::Extended);
    let text = launch.display(Mode::Compact, &Palette::plain()).unwrap();
    assert!(text.lines().nth(1).unwrap().contains(" instantaneous D+"));
}

#[test]
fn a_coming_launch_is_displayed_with_the_time_to_go() {
    let soon = Utc::now().timestamp() + 7_200;
    let launch = launch_at(Instant::from_timestamp(soon, 0).unwrap());
    check_display(&launch, Mode::Compact);
    let text = launch.display(Mode::Compact, &Palette::plain()).unwrap();
    assert!(text.lines().nth(1).unwrap().contains(" instantaneous T-0"));
    let far = launch_at(deserialize("99980101T000000Z").unwrap());
    check_display(&far, Mode::Extended);
    let text = far.display(Mode::Compact, &Palette::plain()).unwrap();
    assert!(text.lines().nth(1).unwrap().contains(" instantaneous D-"));
}

#[test]
fn the_liftoff_is_worded_in_local_time() {
    let launch = launch_at(deserialize("20200101T120000Z").unwrap());
    let text = launch.display(Mode::Compact, &Palette::plain()).unwrap();
    let line = text.lines().nth(1).unwrap();
    assert!(line.starts_with(&format!("Liftoff: {} instantaneous ", local_wording(1_577_880_000))));
}

#[test]
fn the_display_is_highlighted_by_the_palette() {
    let launch = launch_at(deserialize("20200101T120000Z").unwrap());
    let text = launch.display(Mode::Extended, &Palette::ansi()).unwrap();
    assert!(text.starts_with("\x1B[33mLaunch\x1B[0m Electron | Test\n\x1B[36mLiftoff:\x1B[0m "));
    assert!(text.ends_with("\x1B[36mRocket:\x1B[0m Electron\n\x1B[36mMissions:\x1B[0m\n"));
}

#[test]
fn a_liftoff_at_the_edge_of_the_four_digit_years_is_not_displayed() {
    let palette = Palette::plain();
    for text in ["00000101T000000Z", "00000101T235959Z", "99991231T000000Z", "99991231T235959Z"] {
        let launch = launch_at(deserialize(text).unwrap());
        assert!(launch.display(Mode::Compact, &palette).is_none(), "{}", text);
    }
    for text in ["00000102T000000Z", "99991230T235959Z"] {
        let launch = launch_at(deserialize(text).unwrap());
        assert!(launch.display(Mode::Compact, &palette).is_some(), "{}", text);
    }
    assert_eq!(deserialize("00000102T000000Z").unwrap().timestamp(), RFC2822_FIRST);
    assert_eq!(deserialize("99991230T235959Z").unwrap().timestamp(), RFC2822_LAST);
    let late = Instant::from_timestamp(RFC2822_LAST, 999_999_999).unwrap();
    assert!(launch_at(late).display(Mode::Compact, &palette).is_some());
    let later = Instant::from_timestamp(RFC2822_LAST + 1, 0).unwrap();
    assert!(launch_at(later).display(Mode::Compact, &palette).is_none());
    let early = Instant::from_timestamp(RFC2822_FIRST - 1, 999_999_999).unwrap();
    assert!(launch_at(early).display(Mode::Compact, &palette).is_none());
}

#[test]
fn a_collection_is_displayed_in_its_order() {
    let launches = Launches {
        offset: 0,
        count: 3,
        total: 3,
        launches: vec![
            launch_at(deserialize("20200101T120000Z").unwrap()),
            launch_at(deserialize("99991231T235959Z").unwrap()),
            launch_at(deserialize("20180704T093000Z").unwrap()),
        ],
    };
    let texts = launches.display(Mode::Compact, &Palette::plain());
    assert_eq!(texts.len(), 3);
    assert!(texts[0].as_ref().unwrap().contains(&local_wording(1_577_880_000)));
    assert!(texts[1].is_none());
    assert!(texts[2].as_ref().unwrap().contains(&local_wording(1_530_696_600)));
    let none = Launches { offset: 0, count: 0, total: 0, launches: Vec::new() };
    assert!(none.display(Mode::Extended, &Palette::plain()).is_empty());
}
