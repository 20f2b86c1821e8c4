//! Launches and what belongs to them.
//!
//! A launch arrives as a record whose three dates are still text. Decoding
//! reads each date as a timestamp; a record with a date that is none is
//! refused, and with it the whole collection.

use vstd::prelude::*;
use vstd::string::*;
use crate::timestamp::{deserialize, is_timestamp, timestamp_seconds, DecodeError, Instant};
use crate::units::SECOND_NANOS;

verus! {

/// The vehicle of a launch.
#[derive(Debug)]
pub struct Rocket {
    pub id: u32,
    pub name: String,
    pub configuration: String,
}

/// A rocket as plain values.
pub ghost struct RocketView {
    pub id: nat,
    pub name: Seq<char>,
    pub configuration: Seq<char>,
}

impl View for Rocket {
    type V = RocketView;

    open spec fn view(&self) -> RocketView {
        RocketView { id: self.id as nat, name: self.name@, configuration: self.configuration@ }
    }
}

/// A payload or an objective of a launch.
#[derive(Debug)]
pub struct Mission {
    pub id: u32,
    pub name: String,
    pub description: String,
    pub type_label: String,
}

/// A mission as plain values.
pub ghost struct MissionView {
    pub id: nat,
    pub name: Seq<char>,
    pub description: Seq<char>,
    pub type_label: Seq<char>,
}

impl View for Mission {
    type V = MissionView;

    open spec fn view(&self) -> MissionView {
        MissionView {
            id: self.id as nat,
            name: self.name@,
            description: self.description@,
            type_label: self.type_label@,
        }
    }
}

/// The texts of a list of strings, in its order.
pub open spec fn texts(list: Seq<String>) -> Seq<Seq<char>> {
    list.map_values(|s: String| s@)
}

/// The missions of a list as plain values, in its order.
pub open spec fn mission_views(list: Seq<Mission>) -> Seq<MissionView> {
    list.map_values(|m: Mission| m@)
}

/// One launch.
///
/// `net` is the liftoff time as the catalogue words it, kept as it came.
/// `isostart` and `isoend` bound the launch window, `isonet` is the targeted
/// liftoff. `tbddate` and `tbdtime` are kept as they came: a `tbdtime` of 1
/// says that the time of liftoff is not settled yet, any other number that
/// it is. `vid_urls` are the broadcasts, none where none is known.
#[derive(Debug)]
pub struct Launch {
    pub id: u32,
    pub name: String,
    pub net: String,
    pub isostart: Instant,
    pub isoend: Instant,
    pub isonet: Instant,
    pub tbddate: u32,
    pub tbdtime: u32,
    pub vid_urls: Vec<String>,
    pub rocket: Rocket,
    pub missions: Vec<Mission>,
}

/// A launch as plain values; its three instants in nanoseconds since 1970.
pub ghost struct LaunchView {
    pub id: nat,
    pub name: Seq<char>,
    pub net: Seq<char>,
    pub isostart: int,
    pub isoend: int,
    pub isonet: int,
    pub tbddate: nat,
    pub tbdtime: nat,
    pub vid_urls: Seq<Seq<char>>,
    pub rocket: RocketView,
    pub missions: Seq<MissionView>,
}

impl View for Launch {
    type V = LaunchView;

    open spec fn view(&self) -> LaunchView {
        LaunchView {
            id: self.id as nat,
            name: self.name@,
            net: self.net@,
            isostart: self.isostart@,
            isoend: self.isoend@,
            isonet: self.isonet@,
            tbddate: self.tbddate as nat,
            tbdtime: self.tbdtime as nat,
            vid_urls: texts(self.vid_urls@),
            rocket: self.rocket@,
            missions: mission_views(self.missions@),
        }
    }
}

/// A launch as the catalogue sends it: the three dates are timestamps in
/// text, not yet read.
#[derive(Debug)]
pub struct LaunchRecord {
    pub id: u32,
    pub name: String,
    pub net: String,
    pub isostart: String,
    pub isoend: String,
    pub isonet: String,
    pub tbddate: u32,
    pub tbdtime: u32,
    pub vid_urls: Vec<String>,
    pub rocket: Rocket,
    pub missions: Vec<Mission>,
}

impl LaunchRecord {
    /// Whether each of the three dates is a timestamp.
    pub open spec fn dates_ok(&self) -> bool {
        &&& is_timestamp(self.isostart@)
        &&& is_timestamp(self.isoend@)
        &&& is_timestamp(self.isonet@)
    }

    /// The launch that the record describes, where its dates are timestamps.
    pub open spec fn launch(&self) -> LaunchView {
        LaunchView {
            id: self.id as nat,
            name: self.name@,
            net: self.net@,
            isostart: timestamp_seconds(self.isostart@) * SECOND_NANOS,
            isoend: timestamp_seconds(self.isoend@) * SECOND_NANOS,
            isonet: timestamp_seconds(self.isonet@) * SECOND_NANOS,
            tbddate: self.tbddate as nat,
            tbdtime: self.tbdtime as nat,
            vid_urls: texts(self.vid_urls@),
            rocket: self.rocket@,
            missions: mission_views(self.missions@),
        }
    }
}

impl Launch {
    /// Reads the three dates of `record` and makes the launch of it.
    ///
    /// Fails with `DateFormat` where one of the dates is no timestamp; every
    /// other field is taken over as it is.
    pub fn decode(record: LaunchRecord) -> (decoded: Result<Launch, DecodeError>)
        ensures
            decoded is Ok <==> record.dates_ok(),
            decoded matches Ok(launch) ==> launch@ == record.launch(),
            decoded matches Err(e) ==> e == DecodeError::DateFormat,
    {
        let isostart = match deserialize(record.isostart.as_str()) {
            Ok(instant) => instant,
            Err(e) => {
                return Err(e);
            },
        };
        let isoend = match deserialize(record.isoend.as_str()) {
            Ok(instant) => instant,
            Err(e) => {
                return Err(e);
            },
        };
        let isonet = match deserialize(record.isonet.as_str()) {
            Ok(instant) => instant,
            Err(e) => {
                return Err(e);
            },
        };
        Ok(
            Launch {
                id: record.id,
                name: record.name,
                net: record.net,
                isostart,
                isoend,
                isonet,
                tbddate: record.tbddate,
                tbdtime: record.tbdtime,
                vid_urls: record.vid_urls,
                rocket: record.rocket,
                missions: record.missions,
            },
        )
    }
}

/// The launches of one answer of the catalogue, in its order, with the
/// paging numbers that came with them.
#[derive(Debug)]
pub struct Launches {
    pub offset: u32,
    pub count: u32,
    pub total: u32,
    pub launches: Vec<Launch>,
}

/// A collection of launches as plain values.
pub ghost struct LaunchesView {
    pub offset: nat,
    pub count: nat,
    pub total: nat,
    pub launches: Seq<LaunchView>,
}

/// The launches of a list as plain values, in its order.
pub open spec fn launch_views(list: Seq<Launch>) -> Seq<LaunchView> {
    list.map_values(|l: Launch| l@)
}

impl View for Launches {
    type V = LaunchesView;

    open spec fn view(&self) -> LaunchesView {
        LaunchesView {
            offset: self.offset as nat,
            count: self.count as nat,
            total: self.total as nat,
            launches: launch_views(self.launches@),
        }
    }
}

/// An answer of the catalogue with its launches still as records.
#[derive(Debug)]
pub struct LaunchesRecord {
    pub offset: u32,
    pub count: u32,
    pub total: u32,
    pub launches: Vec<LaunchRecord>,
}

impl LaunchesRecord {
    /// Whether the dates of every record are timestamps.
    pub open spec fn dates_ok(&self) -> bool {
        forall|i: int| 0 <= i < self.launches@.len() ==> (#[trigger] self.launches@[i]).dates_ok()
    }

    /// The collection that the records describe.
    pub open spec fn collection(&self) -> LaunchesView {
        LaunchesView {
            offset: self.offset as nat,
            count: self.count as nat,
            total: self.total as nat,
            launches: self.launches@.map_values(|r: LaunchRecord| r.launch()),
        }
    }
}

impl Launches {
    /// Decodes every record of `record`, in order.
    ///
    /// Fails with `DateFormat` where any date of any record is no timestamp:
    /// no part of such an answer is decoded. The paging numbers are taken
    /// over as they are.
    pub fn decode(record: LaunchesRecord) -> (decoded: Result<Launches, DecodeError>)
        ensures
            decoded is Ok <==> record.dates_ok(),
            decoded matches Ok(all) ==> all@ == record.collection(),
            decoded matches Err(e) ==> e == DecodeError::DateFormat,
    {
        let ghost records = record.launches@;
        let mut launches: Vec<Launch> = Vec::new();
        for one in it: record.launches
            invariant
                it.seq() == records,
                launches@.len() == it.index(),
                forall|i: int| 0 <= i < it.index() ==> (#[trigger] records[i]).dates_ok(),
                forall|i: int|
                    0 <= i < it.index() ==> (#[trigger] launches@[i])@ == records[i].launch(),
        {
            match Launch::decode(one) {
                Ok(launch) => {
                    launches.push(launch);
                },
                Err(e) => {
                    return Err(e);
                },
            }
        }
        let all = Launches {
            offset: record.offset,
            count: record.count,
            total: record.total,
            launches,
        };
        assert(all@.launches =~= record.collection().launches);
        Ok(all)
    }

    /// The launches, in their order.
    pub fn into_launches(self) -> (launches: Vec<Launch>)
        ensures
            launches@ == self.launches@,
    {
        self.launches
    }
}

} // verus!
