use idle_arcade::config::{
    count, entry, flag, read_avoider, read_circles, read_pong, read_settings, span, speed,
    ConfigError, Document, Section, Value,
};
use idle_arcade::games::pong::PongSettings;
use std::time::Duration;

const SECOND: i128 = 1_000_000_000;

fn default_document() -> Document {
    Document {
        settings: Some(vec![Value::Real(120 * SECOND)]),
        pong: Some(vec![
            Value::Flag(true),
            Value::Real(300 * SECOND),
            Value::Real(200 * SECOND),
            Value::Real(200 * SECOND),
        ]),
        circles: Some(vec![
            Value::Flag(true),
            Value::Whole(4),
            Value::Whole(10),
            Value::Real(5 * SECOND),
        ]),
        avoider: Some(vec![Value::Flag(true), Value::Real(15 * SECOND), Value::Real(600_000_000)]),
    }
}

fn fault_of(document: &Document) -> ConfigError {
    match read_settings(document) {
        Ok(_) => panic!("the document has a fault"),
        Err(error) => error,
    }
}

#[test]
fn values_are_read_by_their_kind() {
    let list = vec![Value::Flag(true), Value::Whole(7)];
    assert_eq!(entry(&list, 0), Value::Flag(true));
    assert_eq!(entry(&list, 1), Value::Whole(7));
    assert_eq!(entry(&list, 2), Value::Other);
    assert_eq!(flag(Value::Flag(false)), Some(false));
    assert_eq!(flag(Value::Whole(1)), None);
    assert_eq!(count(Value::Whole(-3)), Some(-3));
    assert_eq!(count(Value::Whole(2_147_483_647)), Some(i32::MAX));
    assert_eq!(count(Value::Whole(2_147_483_648)), None);
    assert_eq!(count(Value::Whole(-2_147_483_649)), None);
    assert_eq!(count(Value::Real(3 * SECOND)), None);
    assert_eq!(span(Value::Real(600_000_000)), Some(600_000_000));
    assert_eq!(span(Value::Real(0)), Some(0));
    assert_eq!(span(Value::Real(-1)), None);
    assert_eq!(span(Value::Real(u64::MAX as i128)), Some(u64::MAX));
    assert_eq!(span(Value::Real(u64::MAX as i128 + 1)), None);
    assert_eq!(span(Value::Whole(5)), None);
    assert_eq!(speed(Value::Real(300 * SECOND)), Some(300_000));
    assert_eq!(speed(Value::Real(1_999_999)), Some(1));
    assert_eq!(speed(Value::Real(-1_999_999)), Some(-1));
    assert_eq!(speed(Value::Real(-999_999)), Some(0));
    assert_eq!(speed(Value::Real(2_147_483_647_999_999)), Some(i32::MAX));
    assert_eq!(speed(Value::Real(2_147_483_648_000_000)), None);
    assert_eq!(speed(Value::Real(-2_147_483_648_999_999)), Some(i32::MIN));
    assert_eq!(speed(Value::Real(-2_147_483_649_000_000)), None);
    assert_eq!(speed(Value::Real(i128::MIN)), None);
    assert_eq!(speed(Value::Whole(300)), None);
    assert_eq!(speed(Value::Other), None);
}

#[test]
fn the_default_document_gives_the_default_settings() {
    let settings = match read_settings(&default_document()) {
        Ok(settings) => settings,
        Err(_) => panic!("the default document has no fault"),
    };
    assert_eq!(settings.cooldown, Duration::from_secs(120));
    assert_eq!(
        settings.pong,
        Some(PongSettings { ball_speed: 300_000, paddle_speed: 200_000, ai_paddle_speed: 200_000 })
    );
    match settings.circles {
        Some(circles) => {
            assert_eq!((circles.amount, circles.max_amount), (4, 10));
            assert_eq!(circles.time_limit, Duration::from_secs(5));
        }
        None => panic!("circles are switched on"),
    }
    match settings.avoider {
        Some(avoider) => {
            assert_eq!(avoider.time_limit, Duration::from_secs(15));
            assert_eq!(avoider.spawn_interval, Duration::from_millis(600));
        }
        None => panic!("avoider is switched on"),
    }
}

#[test]
fn a_game_that_is_switched_off_needs_no_more_entries() {
    let document = Document {
        settings: Some(vec![Value::Real(SECOND / 2), Value::Other]),
        pong: Some(vec![Value::Flag(false)]),
        circles: Some(vec![Value::Flag(false), Value::Other]),
        avoider: Some(vec![Value::Flag(false), Value::Whole(3)]),
    };
    match read_settings(&document) {
        Ok(settings) => {
            assert_eq!(settings.cooldown, Duration::from_millis(500));
            assert!(settings.pong.is_none());
            assert!(settings.circles.is_none());
            assert!(settings.avoider.is_none());
        }
        Err(_) => panic!("the document has no fault"),
    }
    assert!(matches!(read_pong(&vec![Value::Flag(false)]), Ok(None)));
    assert!(matches!(read_circles(&vec![Value::Flag(false)]), Ok(None)));
    assert!(matches!(read_avoider(&vec![Value::Flag(false)]), Ok(None)));
}

#[test]
fn a_missing_list_is_named() {
    let mut document = default_document();
    document.avoider = None;
    assert_eq!(fault_of(&document), ConfigError::MissingSection(Section::Avoider));
    document.circles = None;
    assert_eq!(fault_of(&document), ConfigError::MissingSection(Section::Circles));
    document.pong = None;
    assert_eq!(fault_of(&document), ConfigError::MissingSection(Section::Pong));
    document.settings = None;
    assert_eq!(fault_of(&document), ConfigError::MissingSection(Section::Settings));
}

#[test]
fn the_first_faulty_entry_is_named() {
    let mut document = default_document();
    document.settings = Some(vec![Value::Whole(120)]);
    assert_eq!(fault_of(&document), ConfigError::InvalidField(Section::Settings, 0));
    document.avoider = Some(vec![Value::Flag(true), Value::Real(15 * SECOND)]);
    assert_eq!(fault_of(&document), ConfigError::InvalidField(Section::Avoider, 2));
    document.avoider = Some(vec![Value::Flag(true), Value::Real(-1), Value::Other]);
    assert_eq!(fault_of(&document), ConfigError::InvalidField(Section::Avoider, 1));
    document.circles =
        Some(vec![Value::Flag(true), Value::Whole(4), Value::Whole(10), Value::Whole(5)]);
    assert_eq!(fault_of(&document), ConfigError::InvalidField(Section::Circles, 3));
    document.circles = Some(vec![Value::Flag(true), Value::Whole(4), Value::Real(SECOND)]);
    assert_eq!(fault_of(&document), ConfigError::InvalidField(Section::Circles, 2));
    document.circles = Some(vec![Value::Flag(true), Value::Flag(true)]);
    assert_eq!(fault_of(&document), ConfigError::InvalidField(Section::Circles, 1));
    document.pong = Some(vec![
        Value::Flag(true),
        Value::Real(SECOND),
        Value::Real(SECOND),
        Value::Whole(200),
    ]);
    assert_eq!(fault_of(&document), ConfigError::InvalidField(Section::Pong, 3));
    assert!(matches!(read_pong(&vec![Value::Flag(true), Value::Real(1), Value::Other]), Err(2)));
    assert!(matches!(read_pong(&vec![Value::Flag(true)]), Err(1)));
    assert!(matches!(read_pong(&vec![Value::Whole(1)]), Err(0)));
    assert!(matches!(read_circles(&Vec::new()), Err(0)));
    assert!(matches!(read_avoider(&vec![Value::Other]), Err(0)));
    document.settings = Some(Vec::new());
    document.pong = Some(vec![Value::Flag(false)]);
    document.circles = Some(vec![Value::Flag(false)]);
    document.avoider = Some(vec![Value::Flag(false)]);
    assert_eq!(fault_of(&document), ConfigError::InvalidField(Section::Settings, 0));
}
