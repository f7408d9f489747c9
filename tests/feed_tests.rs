use omnipacker::rss::{clear_cache, parse_patchnotes_rss, parse_rfc2822_date, BuildDateCache};

#[test]
fn test_parse_rfc2822_date() {
    let date_str = "Mon, 24 Feb 2025 22:02:36 GMT";
    let result = parse_rfc2822_date(date_str);
    assert!(result.is_ok());
    let dt = result.unwrap();
    assert_eq!(dt.year(), 2025);
    assert_eq!(dt.month(), 2);
    assert_eq!(dt.day(), 24);
}

#[test]
fn test_parse_patchnotes_rss() {
    let xml = r#"
        <rss version="2.0">
          <channel>
            <item>
              <title>Update - Build 18674832</title>
              <pubDate>Mon, 24 Feb 2025 22:02:36 GMT</pubDate>
              <link>https://steamdb.info/patchnotes/18674832/</link>
            </item>
            <item>
              <title>Update - Build 18674000</title>
              <pubDate>Thu, 20 Feb 2025 10:00:00 GMT</pubDate>
              <link>https://steamdb.info/patchnotes/18674000/</link>
            </item>
          </channel>
        </rss>
        "#;

    let result = parse_patchnotes_rss(xml, Some("18674832"));
    assert!(result.is_ok());
    let dt = result.unwrap();
    assert_eq!(dt.day(), 24);

    let result = parse_patchnotes_rss(xml, None);
    assert!(result.is_ok());
    let dt = result.unwrap();
    assert_eq!(dt.day(), 24);

    let result = parse_patchnotes_rss(xml, Some("18674000"));
    assert!(result.is_ok());
    let dt = result.unwrap();
    assert_eq!(dt.day(), 20);
}

#[test]
fn unknown_build_falls_back_to_newest() {
    let xml = "<item><title>Build 2</title><pubDate>Thu, 20 Feb 2025 10:00:00 GMT</pubDate></item>";
    let dt = parse_patchnotes_rss(xml, Some("999")).unwrap();
    assert_eq!((dt.day(), dt.hour()), (20, 10));
}

#[test]
fn empty_feed_and_bad_date() {
    assert_eq!(parse_patchnotes_rss("<rss></rss>", None).err(), Some("No builds found in SteamDB RSS feed".to_string()));
    assert!(parse_patchnotes_rss("<item><title>Build 1</title><pubDate>yesterday</pubDate></item>", None).is_err());
    assert!(parse_rfc2822_date("not a date").is_err());
}

#[test]
fn offset_dates_are_converted_to_utc() {
    let dt = parse_rfc2822_date("Mon, 24 Feb 2025 23:02:36 +0100").unwrap();
    assert_eq!((dt.day(), dt.hour(), dt.minute()), (24, 22, 2));
}

#[test]
fn build_date_cache() {
    let mut cache = BuildDateCache::new();
    let dt = parse_rfc2822_date("Mon, 24 Feb 2025 22:02:36 GMT").unwrap();
    cache.insert("47410", Some("18674832"), dt);
    assert_eq!(cache.get("47410", Some("18674832")), Some(dt));
    assert_eq!(cache.get("47410", None), None);
    clear_cache(&mut cache);
    assert_eq!(cache.get("47410", Some("18674832")), None);
}
