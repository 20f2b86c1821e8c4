use vacuum::launch::{Launch, LaunchRecord, Launches, LaunchesRecord, Mission, Rocket};
use vacuum::timestamp::DecodeError;

fn record(id: u32, start: &str, end: &str, net: &str) -> LaunchRecord {
    LaunchRecord {
        id,
        name: format!("launch {}", id),
        net: "July 4, 2018 09:30:00 UTC".to_string(),
        isostart: start.to_string(),
        isoend: end.to_string(),
        isonet: net.to_string(),
        tbddate: 1,
        tbdtime: 7,
        vid_urls: vec!["https://example.org/a".to_string(), "https://example.org/b".to_string()],
        rocket: Rocket {
            id: 3,
            name: "Ariane 5 ECA".to_string(),
            configuration: "ECA".to_string(),
        },
        missions: vec![Mission {
            id: 9,
            name: "Payload".to_string(),
            description: "A weather satellite.".to_string(),
            type_label: "Earth Science".to_string(),
        }],
    }
}

#[test]
fn a_record_becomes_a_launch() {
    let launch =
        Launch::decode(record(5, "20180704T093000Z", "20180704T113000Z", "20180704T100000Z"))
            .unwrap();
    assert_eq!(launch.id, 5);
    assert_eq!(launch.name, "launch 5");
    assert_eq!(launch.net, "July 4, 2018 09:30:00 UTC");
    assert_eq!(launch.isostart.timestamp(), 1_530_696_600);
    assert_eq!(launch.isoend.timestamp(), 1_530_703_800);
    assert_eq!(launch.isonet.timestamp(), 1_530_698_400);
    assert_eq!(launch.isostart.subsec_nanos(), 0);
    assert_eq!(launch.isoend.subsec_nanos(), 0);
    assert_eq!(launch.isonet.subsec_nanos(), 0);
    assert_eq!(launch.tbddate, 1);
    assert_eq!(launch.tbdtime, 7);
    assert_eq!(launch.vid_urls, ["https://example.org/a", "https://example.org/b"]);
    assert_eq!(launch.rocket.id, 3);
    assert_eq!(launch.rocket.name, "Ariane 5 ECA");
    assert_eq!(launch.rocket.configuration, "ECA");
    assert_eq!(launch.missions.len(), 1);
    assert_eq!(launch.missions[0].id, 9);
    assert_eq!(launch.missions[0].name, "Payload");
    assert_eq!(launch.missions[0].description, "A weather satellite.");
    assert_eq!(launch.missions[0].type_label, "Earth Science");
}

#[test]
fn the_worded_liftoff_is_not_read() {
    let mut odd = record(5, "20180704T093000Z", "20180704T113000Z", "20180704T100000Z");
    odd.net = "not a date at all".to_string();
    let launch = Launch::decode(odd).unwrap();
    assert_eq!(launch.net, "not a date at all");
    assert_eq!(launch.isonet.timestamp(), 1_530_698_400);
}

#[test]
fn the_order_of_the_window_is_not_asked_for() {
    let launch =
        Launch::decode(record(5, "20180704T113000Z", "20180704T093000Z", "20190101T000000Z"))
            .unwrap();
    assert!(launch.isoend.timestamp() < launch.isostart.timestamp());
}

#[test]
fn a_record_with_a_bad_date_is_refused() {
    let good = "20180704T093000Z";
    for bad in ["", "2018-07-04T09:30:00Z", "20180704t093000Z", "20180732T093000Z"] {
        assert_eq!(
            Launch::decode(record(1, bad, good, good)).unwrap_err(),
            DecodeError::DateFormat
        );
        assert_eq!(
            Launch::decode(record(1, good, bad, good)).unwrap_err(),
            DecodeError::DateFormat
        );
        assert_eq!(
            Launch::decode(record(1, good, good, bad)).unwrap_err(),
            DecodeError::DateFormat
        );
    }
}

#[test]
fn a_collection_is_decoded_in_order() {
    let good = "20180704T093000Z";
    let answer = LaunchesRecord {
        offset: 0,
        count: 3,
        total: 211,
        launches: vec![
            record(30, good, good, "20180704T093000Z"),
            record(10, good, good, "20180705T093000Z"),
            record(20, good, good, "20180703T093000Z"),
        ],
    };
    let launches = Launches::decode(answer).unwrap();
    assert_eq!(launches.offset, 0);
    assert_eq!(launches.count, 3);
    assert_eq!(launches.total, 211);
    let list = launches.into_launches();
    let ids: Vec<u32> = list.iter().map(|launch| launch.id).collect();
    assert_eq!(ids, [30, 10, 20]);
    let days: Vec<i64> = list.iter().map(|launch| launch.isonet.timestamp()).collect();
    assert_eq!(days, [1_530_696_600, 1_530_783_000, 1_530_610_200]);
}

#[test]
fn paging_numbers_are_taken_as_they_come() {
    let answer = LaunchesRecord { offset: 40, count: 0, total: 7, launches: Vec::new() };
    let launches = Launches::decode(answer).unwrap();
    assert_eq!((launches.offset, launches.count, launches.total), (40, 0, 7));
    assert!(launches.into_launches().is_empty());
}

#[test]
fn one_bad_date_refuses_the_whole_collection() {
    let good = "20180704T093000Z";
    for place in 0..3 {
        let mut list = vec![
            record(1, good, good, good),
            record(2, good, good, good),
            record(3, good, good, good),
        ];
        list[place].isoend = "20180704T0930Z".to_string();
        let answer = LaunchesRecord { offset: 0, count: 3, total: 3, launches: list };
        assert_eq!(Launches::decode(answer).unwrap_err(), DecodeError::DateFormat);
    }
}
