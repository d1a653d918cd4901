//! The records of the APOD and NeoWs endpoints, and how they are read out of
//! a JSON payload.
use vstd::prelude::*;
use crate::document::{
    as_flag, as_whole, dump, element, element_count, is_number, json_bool, json_count,
    json_document, json_dump, json_element, json_is_number, json_member, json_u64, member,
    member_text, parse_document, text_or_empty,
};
use crate::errors::NetworkError;

verus! {

/// The API key as it is stored in the key file.
#[derive(Clone, Debug)]
pub struct ApiKey {
    pub key: String,
}

impl ApiKey {
    pub fn new(&self, k: &str) -> (r: Self)
        ensures
            r.key@ == k@,
    {
        ApiKey { key: String::from_str(k) }
    }
}

impl Default for ApiKey {
    fn default() -> (r: Self)
        ensures
            r.key@ == Seq::<char>::empty(),
    {
        ApiKey { key: String::new() }
    }
}

/// One day's Astronomy Picture of the Day.
#[derive(Clone, Debug)]
pub struct Apod {
    pub copyright: String,
    pub date: String,
    pub explanation: String,
    pub hdurl: String,
    pub media_type: String,
    pub service_version: String,
    pub title: String,
    pub url: String,
}

/// `a` is what the APOD object `doc` holds: each field the string member of
/// the same name, empty where that member is missing.
pub open spec fn apod_of(a: Apod, doc: json::JsonValue) -> bool {
    &&& a.copyright@ == text_or_empty(json_member(doc, "copyright"@))
    &&& a.date@ == text_or_empty(json_member(doc, "date"@))
    &&& a.explanation@ == text_or_empty(json_member(doc, "explanation"@))
    &&& a.hdurl@ == text_or_empty(json_member(doc, "hdurl"@))
    &&& a.media_type@ == text_or_empty(json_member(doc, "media_type"@))
    &&& a.service_version@ == text_or_empty(json_member(doc, "service_version"@))
    &&& a.title@ == text_or_empty(json_member(doc, "title"@))
    &&& a.url@ == text_or_empty(json_member(doc, "url"@))
}

impl Default for Apod {
    fn default() -> (r: Self)
        ensures
            r.copyright@.len() == 0 && r.date@.len() == 0 && r.explanation@.len() == 0
                && r.hdurl@.len() == 0 && r.media_type@.len() == 0 && r.service_version@.len()
                == 0 && r.title@.len() == 0 && r.url@.len() == 0,
    {
        Apod {
            copyright: String::new(),
            date: String::new(),
            explanation: String::new(),
            hdurl: String::new(),
            media_type: String::new(),
            service_version: String::new(),
            title: String::new(),
            url: String::new(),
        }
    }
}

impl Apod {
    pub fn new(
        &self,
        copyright: String,
        date: String,
        explanation: String,
        hdurl: String,
        media_type: String,
        service_version: String,
        title: String,
        url: String,
    ) -> (r: Self)
        ensures
            r == (Apod {
                copyright,
                date,
                explanation,
                hdurl,
                media_type,
                service_version,
                title,
                url,
            }),
    {
        Apod { copyright, date, explanation, hdurl, media_type, service_version, title, url }
    }

    /// Reads the record out of a parsed APOD object; absent members are empty.
    pub fn from_document(doc: &json::JsonValue) -> (r: Self)
        ensures
            apod_of(r, *doc),
    {
        Apod {
            copyright: member_text(doc, "copyright"),
            date: member_text(doc, "date"),
            explanation: member_text(doc, "explanation"),
            hdurl: member_text(doc, "hdurl"),
            media_type: member_text(doc, "media_type"),
            service_version: member_text(doc, "service_version"),
            title: member_text(doc, "title"),
            url: member_text(doc, "url"),
        }
    }

    /// Reads the record out of the text of an APOD response.
    pub fn decode(body: &str) -> (r: Result<Self, NetworkError>)
        ensures
            match json_document(body@) {
                None => r is Err && r->Err_0 is JsonParseFailed,
                Some(doc) => r is Ok && apod_of(r->Ok_0, doc),
            },
    {
        match parse_document(body) {
            Ok(doc) => Ok(Apod::from_document(&doc)),
            Err(e) => Err(NetworkError::JsonParseFailed(e)),
        }
    }
}

/// Pagination cursor of a NeoWs feed.
#[derive(Clone, Debug)]
pub struct Links {
    next: String,
    previous: String,
    current: String,
}

impl Links {
    pub closed spec fn next_view(&self) -> Seq<char> {
        self.next@
    }

    pub closed spec fn previous_view(&self) -> Seq<char> {
        self.previous@
    }

    pub closed spec fn current_view(&self) -> Seq<char> {
        self.current@
    }

    pub fn new(next: String, previous: String, current: String) -> (r: Links)
        ensures
            r.next_view() == next@,
            r.previous_view() == previous@,
            r.current_view() == current@,
    {
        Links { next, previous, current }
    }

    pub fn next(&self) -> (r: &str)
        ensures
            r@ == self.next_view(),
    {
        self.next.as_str()
    }

    pub fn previous(&self) -> (r: &str)
        ensures
            r@ == self.previous_view(),
    {
        self.previous.as_str()
    }

    pub fn current(&self) -> (r: &str)
        ensures
            r@ == self.current_view(),
    {
        self.current.as_str()
    }
}

impl Default for Links {
    fn default() -> (r: Self)
        ensures
            r.next_view().len() == 0 && r.previous_view().len() == 0 && r.current_view().len()
                == 0,
    {
        Links { next: String::new(), previous: String::new(), current: String::new() }
    }
}

/// `l` is what the `links` object `v` holds; the member `self` is the
/// current page.
pub open spec fn links_of(l: Links, v: json::JsonValue) -> bool {
    &&& l.next_view() == text_or_empty(json_member(v, "next"@))
    &&& l.previous_view() == text_or_empty(json_member(v, "previous"@))
    &&& l.current_view() == text_or_empty(json_member(v, "self"@))
}

/// One close approach of an asteroid to a body. Diameters are kept as the
/// JSON text of their numbers; speeds and distances as the decimal strings
/// the feed gives, so no digit is lost.
#[derive(Debug)]
pub struct NearEarthObject {
    pub id: String,
    pub neo_reference_id: String,
    pub name: String,
    /// ((feet_min, feet_max), (meters_min, meters_max))
    pub estimated_diameter: ((String, String), (String, String)),
    pub is_potentially_hazardous_asteroid: bool,
    pub close_approach_date: String,
    pub close_approach_date_full: String,
    pub epoch_date_close_approach: u64,
    /// (kilometers_per_second, kilometers_per_hour, miles_per_hour)
    pub relative_velocity: (String, String, String),
    /// (astronomical, lunar, kilometers, miles)
    pub miss_distance: (String, String, String, String),
    pub orbiting_body: String,
    pub is_sentry_object: bool,
}

/// The member of `o` at the path `a`, `b`, `c`.
pub open spec fn at3(o: json::JsonValue, a: Seq<char>, b: Seq<char>, c: Seq<char>) -> json::JsonValue {
    json_member(json_member(json_member(o, a), b), c)
}

/// The first close approach record of a feed entry.
pub open spec fn first_approach(o: json::JsonValue) -> json::JsonValue {
    json_element(json_member(o, "close_approach_data"@), 0)
}

pub open spec fn diameter_at(o: json::JsonValue, unit: Seq<char>, bound: Seq<char>) -> json::JsonValue {
    at3(o, "estimated_diameter"@, unit, bound)
}

/// Whether a feed entry has every member that a record needs, of the right
/// type: four diameters, both flags, a close approach and its epoch.
pub open spec fn neo_complete(o: json::JsonValue) -> bool {
    &&& json_is_number(diameter_at(o, "feet"@, "estimated_diameter_min"@))
    &&& json_is_number(diameter_at(o, "feet"@, "estimated_diameter_max"@))
    &&& json_is_number(diameter_at(o, "meters"@, "estimated_diameter_min"@))
    &&& json_is_number(diameter_at(o, "meters"@, "estimated_diameter_max"@))
    &&& json_bool(json_member(o, "is_potentially_hazardous_asteroid"@)) is Some
    &&& json_count(json_member(o, "close_approach_data"@)) > 0
    &&& json_u64(json_member(first_approach(o), "epoch_date_close_approach"@)) is Some
    &&& json_bool(json_member(o, "is_sentry_object"@)) is Some
}

/// `n` is the record that the complete feed entry `o` holds.
pub open spec fn neo_of(n: NearEarthObject, o: json::JsonValue) -> bool {
    let c = first_approach(o);
    let v = json_member(c, "relative_velocity"@);
    let m = json_member(c, "miss_distance"@);
    &&& n.id@ == text_or_empty(json_member(o, "id"@))
    &&& n.neo_reference_id@ == text_or_empty(json_member(o, "neo_reference_id"@))
    &&& n.name@ == text_or_empty(json_member(o, "name"@))
    &&& n.estimated_diameter.0.0@ == json_dump(diameter_at(o, "feet"@, "estimated_diameter_min"@))
    &&& n.estimated_diameter.0.1@ == json_dump(diameter_at(o, "feet"@, "estimated_diameter_max"@))
    &&& n.estimated_diameter.1.0@ == json_dump(diameter_at(o, "meters"@, "estimated_diameter_min"@))
    &&& n.estimated_diameter.1.1@ == json_dump(diameter_at(o, "meters"@, "estimated_diameter_max"@))
    &&& Some(n.is_potentially_hazardous_asteroid) == json_bool(json_member(o, "is_potentially_hazardous_asteroid"@))
    &&& n.close_approach_date@ == text_or_empty(json_member(c, "close_approach_date"@))
    &&& n.close_approach_date_full@ == text_or_empty(json_member(c, "close_approach_date_full"@))
    &&& Some(n.epoch_date_close_approach) == json_u64(json_member(c, "epoch_date_close_approach"@))
    &&& n.relative_velocity.0@ == text_or_empty(json_member(v, "kilometers_per_second"@))
    &&& n.relative_velocity.1@ == text_or_empty(json_member(v, "kilometers_per_hour"@))
    &&& n.relative_velocity.2@ == text_or_empty(json_member(v, "miles_per_hour"@))
    &&& n.miss_distance.0@ == text_or_empty(json_member(m, "astronomical"@))
    &&& n.miss_distance.1@ == text_or_empty(json_member(m, "lunar"@))
    &&& n.miss_distance.2@ == text_or_empty(json_member(m, "kilometers"@))
    &&& n.miss_distance.3@ == text_or_empty(json_member(m, "miles"@))
    &&& n.orbiting_body@ == text_or_empty(json_member(c, "orbiting_body"@))
    &&& Some(n.is_sentry_object) == json_bool(json_member(o, "is_sentry_object"@))
}

impl NearEarthObject {
    pub fn new(
        id: String,
        neo_reference_id: String,
        name: String,
        estimated_diameter: ((String, String), (String, String)),
        is_potentially_hazardous_asteroid: bool,
        close_approach_date: String,
        close_approach_date_full: String,
        epoch_date_close_approach: u64,
        relative_velocity: (String, String, String),
        miss_distance: (String, String, String, String),
        orbiting_body: String,
        is_sentry_object: bool,
    ) -> (r: Self)
        ensures
            r == (NearEarthObject {
                id,
                neo_reference_id,
                name,
                estimated_diameter,
                is_potentially_hazardous_asteroid,
                close_approach_date,
                close_approach_date_full,
                epoch_date_close_approach,
                relative_velocity,
                miss_distance,
                orbiting_body,
                is_sentry_object,
            }),
    {
        NearEarthObject {
            id,
            neo_reference_id,
            name,
            estimated_diameter,
            is_potentially_hazardous_asteroid,
            close_approach_date,
            close_approach_date_full,
            epoch_date_close_approach,
            relative_velocity,
            miss_distance,
            orbiting_body,
            is_sentry_object,
        }
    }

    /// Reads a record out of one feed entry; `None` where the entry lacks a
    /// member that a record needs or has one of the wrong type.
    pub fn from_document(o: &json::JsonValue) -> (r: Option<Self>)
        ensures
            r is Some <==> neo_complete(*o),
            r is Some ==> neo_of(r->Some_0, *o),
    {
        let diameter = member(o, "estimated_diameter");
        let feet = member(diameter, "feet");
        let meters = member(diameter, "meters");
        let feet_min = member(feet, "estimated_diameter_min");
        let feet_max = member(feet, "estimated_diameter_max");
        let meters_min = member(meters, "estimated_diameter_min");
        let meters_max = member(meters, "estimated_diameter_max");
        if !is_number(feet_min) || !is_number(feet_max) || !is_number(meters_min) || !is_number(
            meters_max,
        ) {
            return None;
        }
        let hazardous = match as_flag(member(o, "is_potentially_hazardous_asteroid")) {
            Some(b) => b,
            None => return None,
        };
        let approaches = member(o, "close_approach_data");
        if element_count(approaches) == 0 {
            return None;
        }
        let c = element(approaches, 0);
        let epoch = match as_whole(member(c, "epoch_date_close_approach")) {
            Some(e) => e,
            None => return None,
        };
        let sentry = match as_flag(member(o, "is_sentry_object")) {
            Some(b) => b,
            None => return None,
        };
        let v = member(c, "relative_velocity");
        let m = member(c, "miss_distance");
        Some(
            NearEarthObject::new(
                member_text(o, "id"),
                member_text(o, "neo_reference_id"),
                member_text(o, "name"),
                ((dump(feet_min), dump(feet_max)), (dump(meters_min), dump(meters_max))),
                hazardous,
                member_text(c, "close_approach_date"),
                member_text(c, "close_approach_date_full"),
                epoch,
                (
                    member_text(v, "kilometers_per_second"),
                    member_text(v, "kilometers_per_hour"),
                    member_text(v, "miles_per_hour"),
                ),
                (
                    member_text(m, "astronomical"),
                    member_text(m, "lunar"),
                    member_text(m, "kilometers"),
                    member_text(m, "miles"),
                ),
                member_text(c, "orbiting_body"),
                sentry,
            ),
        )
    }
}

/// The entries of a NeoWs payload for one day: the array under
/// `near_earth_objects`, keyed by the day itself.
pub open spec fn day_entries(doc: json::JsonValue, date: Seq<char>) -> json::JsonValue {
    json_member(json_member(doc, "near_earth_objects"@), date)
}

/// Whether the first `n` entries of `list` are complete.
pub open spec fn entries_complete(list: json::JsonValue, n: int) -> bool {
    forall|i: int| 0 <= i < n ==> #[trigger] neo_complete(json_element(list, i))
}

/// Whether `k` is the position of the first incomplete entry of `list`.
pub open spec fn first_incomplete(list: json::JsonValue, k: int) -> bool {
    0 <= k < json_count(list) && !neo_complete(json_element(list, k)) && entries_complete(list, k)
}

/// The near earth objects of a day, with the feed's pagination links.
#[derive(Debug)]
pub struct NEOFeed {
    pub links: Links,
    /// The count that the feed was made with; a refetch leaves it as it was,
    /// and `object_count` gives the count of the objects held.
    pub element_count: u8,
    pub near_earth_objects: Vec<NearEarthObject>,
}

/// `feed` holds the links of `doc` and, in order, one record for each entry
/// of `list`.
pub open spec fn feed_holds(feed: NEOFeed, doc: json::JsonValue, list: json::JsonValue) -> bool {
    &&& links_of(feed.links, json_member(doc, "links"@))
    &&& feed.near_earth_objects@.len() == json_count(list)
    &&& forall|i: int|
        0 <= i < feed.near_earth_objects@.len() ==> neo_of(
            #[trigger] feed.near_earth_objects@[i],
            json_element(list, i),
        )
}

impl Default for NEOFeed {
    fn default() -> (r: Self)
        ensures
            r.element_count == 0,
            r.near_earth_objects@.len() == 0,
    {
        NEOFeed { links: Links::default(), element_count: 0, near_earth_objects: Vec::new() }
    }
}

impl NEOFeed {
    pub fn new(links: Links, element_count: u8, near_earth_objects: Vec<NearEarthObject>) -> (r:
        Self)
        ensures
            r == (NEOFeed { links, element_count, near_earth_objects }),
    {
        NEOFeed { links, element_count, near_earth_objects }
    }

    /// The number of objects the feed holds.
    pub fn object_count(&self) -> (r: usize)
        ensures
            r == self.near_earth_objects@.len(),
    {
        self.near_earth_objects.len()
    }

    /// Replaces the links and the objects of the feed with those that the
    /// parsed payload `doc` holds for `date`. An incomplete entry fails the
    /// whole update, naming its position, and leaves the feed as it was.
    pub fn update_from_document(&mut self, doc: &json::JsonValue, date: &str) -> (r: Result<
        (),
        NetworkError,
    >)
        ensures
            r is Ok <==> entries_complete(day_entries(*doc, date@), json_count(day_entries(*doc, date@)) as int),
            r is Ok ==> feed_holds(*final(self), *doc, day_entries(*doc, date@)),
            r is Ok ==> final(self).element_count == old(self).element_count,
            r is Err ==> r->Err_0 is MalformedRecord && first_incomplete(
                day_entries(*doc, date@),
                r->Err_0->MalformedRecord_0 as int,
            ),
            r is Err ==> *final(self) == *old(self),
    {
        let list = member(member(doc, "near_earth_objects"), date);
        let n = element_count(list);
        let mut objects: Vec<NearEarthObject> = Vec::new();
        let mut i: usize = 0;
        while i < n
            invariant
                n == json_count(*list),
                *list == day_entries(*doc, date@),
                i <= n,
                objects@.len() == i,
                entries_complete(*list, i as int),
                forall|j: int| 0 <= j < i ==> neo_of(#[trigger] objects@[j], json_element(*list, j)),
            decreases n - i,
        {
            match NearEarthObject::from_document(element(list, i)) {
                Some(o) => {
                    objects.push(o);
                },
                None => {
                    return Err(NetworkError::MalformedRecord(i));
                },
            }
            i = i + 1;
        }
        let l = member(doc, "links");
        self.links = Links::new(member_text(l, "next"), member_text(l, "previous"), member_text(l, "self"));
        self.near_earth_objects = objects;
        Ok(())
    }

    /// Reads the text of a NeoWs response for `date` into the feed, as
    /// `update_from_document` does once the text is parsed.
    pub fn decode_into(&mut self, body: &str, date: &str) -> (r: Result<(), NetworkError>)
        ensures
            json_document(body@) is None ==> r is Err && r->Err_0 is JsonParseFailed && *final(self) == *old(self),
            json_document(body@) matches Some(doc) ==> {
                let list = day_entries(doc, date@);
                &&& r is Ok <==> entries_complete(list, json_count(list) as int)
                &&& r is Ok ==> feed_holds(*final(self), doc, list)
                    && final(self).element_count == old(self).element_count
                &&& r is Err ==> r->Err_0 is MalformedRecord && first_incomplete(
                    list,
                    r->Err_0->MalformedRecord_0 as int,
                ) && *final(self) == *old(self)
            },
    {
        match parse_document(body) {
            Ok(doc) => self.update_from_document(&doc, date),
            Err(e) => Err(NetworkError::JsonParseFailed(e)),
        }
    }
}

/// A payload whose array for the day is empty is complete: updating a feed
/// from it succeeds, and the feed then holds no object.
pub proof fn lemma_empty_day(doc: json::JsonValue, date: Seq<char>, feed: NEOFeed)
    requires
        json_count(day_entries(doc, date)) == 0,
    ensures
        entries_complete(day_entries(doc, date), json_count(day_entries(doc, date)) as int),
        feed_holds(feed, doc, day_entries(doc, date)) ==> feed.near_earth_objects@.len() == 0,
{
}

/// Record of the NASA Image and Video Library endpoint; it carries no data.
#[derive(Clone, Debug)]
pub struct NIVL {}

impl Default for NIVL {
    fn default() -> (r: Self) {
        NIVL {}
    }
}

} // verus!
