use spacepix::{Apod, Links, NEOFeed, NearEarthObject, NetworkError, ApiKey, NIVL};

const APOD_BODY: &str = r#"{
  "copyright": "Jane Doe",
  "date": "2020-10-10",
  "explanation": "A galaxy far away.",
  "hdurl": "https://apod.nasa.gov/apod/image/2010/hd.jpg",
  "media_type": "image",
  "service_version": "v1",
  "title": "Spiral",
  "url": "https://apod.nasa.gov/apod/image/2010/sd.jpg"
}"#;

const NEOWS_BODY: &str = r#"{
  "links": {
    "next": "http://api.nasa.gov/neo/rest/v1/feed?start_date=2020-10-11&end_date=2020-10-11&detailed=false&api_key=DEMO_KEY",
    "previous": "http://api.nasa.gov/neo/rest/v1/feed?start_date=2020-10-09&end_date=2020-10-09&detailed=false&api_key=DEMO_KEY",
    "self": "http://api.nasa.gov/neo/rest/v1/feed?start_date=2020-10-10&end_date=2020-10-10&detailed=false&api_key=DEMO_KEY"
  },
  "element_count": 2,
  "near_earth_objects": {
    "2020-10-10": [
      {
        "id": "2154347",
        "neo_reference_id": "2154347",
        "name": "154347 (2002 XK4)",
        "estimated_diameter": {
          "feet": { "estimated_diameter_min": 1550.3, "estimated_diameter_max": 3466.6 },
          "meters": { "estimated_diameter_min": 472.5, "estimated_diameter_max": 1056.6 }
        },
        "is_potentially_hazardous_asteroid": false,
        "close_approach_data": [
          {
            "close_approach_date": "2020-10-10",
            "close_approach_date_full": "2020-Oct-10 10:36",
            "epoch_date_close_approach": 1602326160000,
            "relative_velocity": {
              "kilometers_per_second": "13.8934918610729143",
              "kilometers_per_hour": "50016.5706998624912345",
              "miles_per_hour": "31078.1736612103456789"
            },
            "miss_distance": {
              "astronomical": "0.3109404497512345678",
              "lunar": "120.9558349532109876",
              "kilometers": "46515570.837212634512",
              "miles": "28903493.0411275123456"
            },
            "orbiting_body": "Earth"
          }
        ],
        "is_sentry_object": false
      },
      {
        "id": "3012",
        "neo_reference_id": "3012",
        "name": "(1999 AB)",
        "estimated_diameter": {
          "feet": { "estimated_diameter_min": 10, "estimated_diameter_max": 20 },
          "meters": { "estimated_diameter_min": 3, "estimated_diameter_max": 6 }
        },
        "is_potentially_hazardous_asteroid": true,
        "close_approach_data": [
          {
            "close_approach_date": "2020-10-10",
            "close_approach_date_full": "2020-Oct-10 23:01",
            "epoch_date_close_approach": 1602370860000,
            "relative_velocity": {
              "kilometers_per_second": "1.5",
              "kilometers_per_hour": "5400",
              "miles_per_hour": "3355.4"
            },
            "miss_distance": {
              "astronomical": "0.01",
              "lunar": "3.89",
              "kilometers": "1495978.707",
              "miles": "929558.0"
            },
            "orbiting_body": "Mars"
          }
        ],
        "is_sentry_object": true
      }
    ]
  }
}"#;

#[test]
fn test_get_apod_data_blocking() {
    let apod = match Apod::decode(APOD_BODY) {
        Ok(a) => a,
        Err(e) => panic!("{:?}", e),
    };
    assert_eq!(apod.copyright, "Jane Doe");
    assert_eq!(apod.date, "2020-10-10");
    assert_eq!(apod.explanation, "A galaxy far away.");
    assert_eq!(apod.hdurl, "https://apod.nasa.gov/apod/image/2010/hd.jpg");
    assert_eq!(apod.media_type, "image");
    assert_eq!(apod.service_version, "v1");
    assert_eq!(apod.title, "Spiral");
    assert_eq!(apod.url, "https://apod.nasa.gov/apod/image/2010/sd.jpg");
}

#[test]
fn apod_missing_members_are_empty() {
    let apod = Apod::decode("{\"title\": \"Only a title\", \"copyright\": null}").unwrap();
    assert_eq!(apod.title, "Only a title");
    assert_eq!(apod.copyright, "");
    assert_eq!(apod.date, "");
    assert_eq!(apod.url, "");
}

#[test]
fn apod_invalid_json_is_a_parse_error() {
    assert!(matches!(Apod::decode("<html>503</html>"), Err(NetworkError::JsonParseFailed(_))));
}

#[test]
fn apod_new_keeps_its_fields() {
    let base = Apod::default();
    let a = base.new(
        "c".to_string(),
        "d".to_string(),
        "e".to_string(),
        "h".to_string(),
        "m".to_string(),
        "s".to_string(),
        "t".to_string(),
        "u".to_string(),
    );
    assert_eq!(a.copyright, "c");
    assert_eq!(a.url, "u");
    assert_eq!(base.title, "");
}

#[test]
fn neows_sample_keeps_decimal_strings_exactly() {
    let mut feed = NEOFeed::default();
    feed.decode_into(NEOWS_BODY, "2020-10-10").unwrap();
    assert_eq!(feed.object_count(), 2);
    let first = &feed.near_earth_objects[0];
    assert_eq!(first.id, "2154347");
    assert_eq!(first.neo_reference_id, "2154347");
    assert_eq!(first.name, "154347 (2002 XK4)");
    assert_eq!(first.relative_velocity.0, "13.8934918610729143");
    assert_eq!(first.relative_velocity.1, "50016.5706998624912345");
    assert_eq!(first.relative_velocity.2, "31078.1736612103456789");
    assert_eq!(first.miss_distance.0, "0.3109404497512345678");
    assert_eq!(first.miss_distance.1, "120.9558349532109876");
    assert_eq!(first.miss_distance.2, "46515570.837212634512");
    assert_eq!(first.miss_distance.3, "28903493.0411275123456");
    assert_eq!(first.close_approach_date, "2020-10-10");
    assert_eq!(first.close_approach_date_full, "2020-Oct-10 10:36");
    assert_eq!(first.epoch_date_close_approach, 1602326160000);
    assert_eq!(first.orbiting_body, "Earth");
    assert!(!first.is_potentially_hazardous_asteroid);
    assert!(!first.is_sentry_object);
    assert_eq!(first.estimated_diameter.0 .0, "1550.3");
    assert_eq!(first.estimated_diameter.1 .1, "1056.6");
    let second = &feed.near_earth_objects[1];
    assert_eq!(second.name, "(1999 AB)");
    assert!(second.is_potentially_hazardous_asteroid);
    assert!(second.is_sentry_object);
    assert_eq!(second.orbiting_body, "Mars");
    assert_eq!(second.estimated_diameter.0 .0, "10");
}

#[test]
fn neows_links_map_self_to_current() {
    let mut feed = NEOFeed::default();
    feed.decode_into(NEOWS_BODY, "2020-10-10").unwrap();
    assert!(feed.links.current().contains("start_date=2020-10-10"));
    assert!(feed.links.next().contains("start_date=2020-10-11"));
    assert!(feed.links.previous().contains("start_date=2020-10-09"));
}

#[test]
fn neows_refetch_leaves_element_count() {
    let mut feed = NEOFeed::new(Links::default(), 7, Vec::new());
    feed.decode_into(NEOWS_BODY, "2020-10-10").unwrap();
    assert_eq!(feed.element_count, 7);
    assert_eq!(feed.object_count(), 2);
}

#[test]
fn neows_empty_day_gives_no_objects() {
    let body = "{\"links\":{\"next\":\"n\",\"previous\":\"p\",\"self\":\"s\"},\"element_count\":0,\"near_earth_objects\":{\"2020-10-10\":[]}}";
    let mut feed = NEOFeed::default();
    assert!(feed.decode_into(body, "2020-10-10").is_ok());
    assert_eq!(feed.object_count(), 0);
    assert_eq!(feed.links.current(), "s");
}

#[test]
fn neows_other_day_gives_no_objects() {
    let mut feed = NEOFeed::default();
    assert!(feed.decode_into(NEOWS_BODY, "1999-01-01").is_ok());
    assert_eq!(feed.object_count(), 0);
}

#[test]
fn neows_incomplete_entry_is_malformed() {
    let body = NEOWS_BODY.replace("\"is_sentry_object\": true", "\"is_sentry_object\": \"yes\"");
    let mut feed = NEOFeed::new(Links::new("a".into(), "b".into(), "c".into()), 3, Vec::new());
    assert!(matches!(feed.decode_into(&body, "2020-10-10"), Err(NetworkError::MalformedRecord(1))));
    assert_eq!(feed.object_count(), 0);
    assert_eq!(feed.links.next(), "a");
}

#[test]
fn neows_entry_without_approach_is_malformed() {
    let body = NEOWS_BODY.replacen("\"close_approach_data\": [", "\"close_approach_data\": [], \"x\": [", 1);
    let mut feed = NEOFeed::default();
    assert!(matches!(feed.decode_into(&body, "2020-10-10"), Err(NetworkError::MalformedRecord(0))));
}

#[test]
fn neows_invalid_json_is_a_parse_error() {
    let mut feed = NEOFeed::default();
    assert!(matches!(feed.decode_into("{\"links\":", "2020-10-10"), Err(NetworkError::JsonParseFailed(_))));
}

#[test]
fn near_earth_object_new_keeps_its_fields() {
    let n = NearEarthObject::new(
        "1".into(),
        "2".into(),
        "n".into(),
        (("a".into(), "b".into()), ("c".into(), "d".into())),
        true,
        "2020-10-10".into(),
        "2020-Oct-10 10:36".into(),
        5,
        ("x".into(), "y".into(), "z".into()),
        ("p".into(), "q".into(), "r".into(), "s".into()),
        "Earth".into(),
        false,
    );
    assert_eq!(n.id, "1");
    assert_eq!(n.epoch_date_close_approach, 5);
    assert_eq!(n.miss_distance.3, "s");
    assert!(n.is_potentially_hazardous_asteroid);
}

#[test]
fn api_key_new_holds_the_key() {
    let k = ApiKey::default().new("DEMO_KEY");
    assert_eq!(k.key, "DEMO_KEY");
    let _ = NIVL::default();
}
