use critters_core::settings::Settings;

#[test]
fn text_round_trips() {
    let s = Settings {
        best_score: 12345,
        muted: true,
    };
    assert_eq!(Settings::from_text(&s.to_text()), s);
    assert_eq!(
        Settings::from_text("garbage\nmuted=0\nbest_score=x"),
        Settings::default()
    );
}

#[test]
fn settings_text_format() {
    let s = Settings {
        best_score: 7,
        muted: false,
    };
    assert_eq!(s.to_text(), "best_score=7\nmuted=0\n");
    assert_eq!(Settings::default().to_text(), "best_score=0\nmuted=0\n");
    let max = Settings {
        best_score: u32::MAX,
        muted: true,
    };
    assert_eq!(max.to_text(), "best_score=4294967295\nmuted=1\n");
    assert_eq!(Settings::from_text(&max.to_text()), max);
}

#[test]
fn settings_parsing_edge_cases() {
    // whitespace around keys and values, CRLF line ends, later lines win
    let s = Settings::from_text("  best_score = 42 \r\nmuted= 1\r\nbest_score=+43\n");
    assert_eq!(s, Settings { best_score: 43, muted: true });
    // overflow and signs read as 0; muted needs exactly "1"
    assert_eq!(Settings::from_text("best_score=4294967296").best_score, 0);
    assert_eq!(Settings::from_text("best_score=-5").best_score, 0);
    assert_eq!(Settings::from_text("best_score=+").best_score, 0);
    assert!(!Settings::from_text("muted=yes").muted);
    assert!(!Settings::from_text("muted=11").muted);
    // a value may hold '=' itself; only the first one splits
    assert_eq!(Settings::from_text("best_score==3").best_score, 0);
    assert_eq!(Settings::from_text("").best_score, 0);
    // a lone \r is not a line end
    assert_eq!(Settings::from_text("muted=1\rbest_score=9").muted, false);
}

#[test]
fn storage_values_round_trip() {
    let s = Settings {
        best_score: 980,
        muted: true,
    };
    let best = s.stored_best_score();
    assert_eq!(best, "980");
    assert_eq!(s.stored_muted(), "1");
    assert_eq!(Settings::from_stored(Some(&best), Some(s.stored_muted())), s);
    assert_eq!(Settings::from_stored(None, None), Settings::default());
    assert_eq!(
        Settings::from_stored(Some(" 12 "), Some(" 1")),
        Settings { best_score: 12, muted: false }
    );
    assert_eq!(Settings::from_stored(Some("abc"), Some("0")).best_score, 0);
}

#[test]
fn the_last_line_of_each_key_wins() {
    let s = Settings::from_text("best_score=5\nmuted=1\nnoise\n best_score = 7 \nmuted=0\ncolour=red\n");
    assert_eq!(s, Settings { best_score: 7, muted: false });
    let s = Settings::from_text("muted=0\nmuted=1");
    assert_eq!(s, Settings { best_score: 0, muted: true });
    let s = Settings::from_text("best_score=9\nbest_score=nine\n");
    assert_eq!(s.best_score, 0);
}
