use spacepix::parser::{decode_key_file, encode_key_file};
use spacepix::urls::fill_template;
use spacepix::{ApiKeyError, Parser, Urls};

#[test]
fn test_apod_url() {
    assert_eq!(
        Parser::new(String::from("DEMO_KEY")).apod_url(),
        "https://api.nasa.gov/planetary/apod?api_key=DEMO_KEY"
    );
}

#[test]
fn test_neows_url() {
    assert_eq!(
        Parser::new(String::from("DEMO_KEY")).neows_url("2020-10-10"),
        "https://api.nasa.gov/neo/rest/v1/feed?start_date=2020-10-10&end_date=2020-10-10&api_key=DEMO_KEY"
    );
}

#[test]
fn apod_url_ends_with_any_key() {
    let key = "k3y-with_odd&chars";
    let url = Parser::new(String::from(key)).apod_url();
    assert!(url.starts_with("https://api.nasa.gov/planetary/apod?"));
    assert!(url.ends_with("api_key=k3y-with_odd&chars"));
}

#[test]
fn neows_url_takes_date_verbatim() {
    let url = Parser::new(String::from("K")).neows_url("xEND_DATEy");
    assert_eq!(
        url,
        "https://api.nasa.gov/neo/rest/v1/feed?start_date=xEND_DATEy&end_date=xEND_DATEy&api_key=K"
    );
}

#[test]
fn neows_url_with_empty_date_and_key() {
    let url = Parser::new(String::new()).neows_url("");
    assert_eq!(url, "https://api.nasa.gov/neo/rest/v1/feed?start_date=&end_date=&api_key=");
    assert!(!url.contains("START_DATE"));
    assert!(!url.contains("END_DATE"));
}

#[test]
fn fill_template_replaces_each_token() {
    assert_eq!(fill_template("START_DATE..END_DATE/START_DATE", "d"), "d..d/d");
    assert_eq!(fill_template("no tokens here", "d"), "no tokens here");
    assert_eq!(fill_template("", "d"), "");
    assert_eq!(fill_template("START_DAT", "d"), "START_DAT");
}

#[test]
fn default_urls_are_the_endpoints() {
    let urls = Urls::default();
    assert_eq!(urls.apod, "https://api.nasa.gov/planetary/apod?api_key=");
    assert_eq!(
        urls.donki,
        "https://api.nasa.gov/DONKI/CME?startDate=yyyy-MM-dd&endDate=yyyy-MM-dd&api_key="
    );
}

#[test]
fn get_api_key_returns_the_key() {
    assert_eq!(Parser::new(String::from("DEMO_KEY")).get_api_key(), "DEMO_KEY");
}

#[test]
fn key_file_text_is_a_json_object() {
    assert_eq!(encode_key_file("DEMO_KEY"), "{\"key\":\"DEMO_KEY\"}");
    assert_eq!(encode_key_file("a\"b"), "{\"key\":\"a\\\"b\"}");
}

#[test]
fn key_file_round_trip() {
    for key in ["DEMO_KEY", "", "with \"quotes\" and \\ slash", "ключ", "tab\there"] {
        let text = encode_key_file(key);
        match decode_key_file(&text) {
            Ok(k) => assert_eq!(k, key),
            Err(e) => panic!("round trip failed for {:?}: {:?}", key, e),
        }
    }
}

#[test]
fn key_file_reads_the_string_value() {
    match decode_key_file("{ \"key\": \"abc\", \"other\": 1 }") {
        Ok(k) => assert_eq!(k, "abc"),
        Err(e) => panic!("{:?}", e),
    }
}

#[test]
fn malformed_key_file_is_a_key_file_error() {
    assert!(matches!(decode_key_file("{ \"key\": "), Err(ApiKeyError::KeyFile(_))));
    assert!(matches!(decode_key_file("not json"), Err(ApiKeyError::KeyFile(_))));
    assert!(matches!(decode_key_file(""), Err(ApiKeyError::KeyFile(_))));
}

#[test]
fn key_file_without_a_string_key_is_invalid() {
    assert!(matches!(decode_key_file("{}"), Err(ApiKeyError::InvalidApiKey())));
    assert!(matches!(decode_key_file("{\"key\": 5}"), Err(ApiKeyError::InvalidApiKey())));
    assert!(matches!(decode_key_file("[\"key\"]"), Err(ApiKeyError::InvalidApiKey())));
}
