//! From the settings document to the settings: which entries a document
//! has to hold, what they have to be, and what they mean. A document is
//! four lists of values, as a reader of the settings file hands them over.

use crate::games::avoider::AvoiderSettings;
use crate::games::circles::CirclesSettings;
use crate::games::pong::PongSettings;
use crate::games::Settings;
use crate::motion::quotient;
use crate::util::{duration_nanos, span_of};
use vstd::prelude::*;

verus! {

/// Billionths in one thousandth.
pub const BILLIONTHS_PER_THOUSANDTH: i128 = 1_000_000;

/// One entry of a list.
#[derive(Clone, Copy, Debug, PartialEq, Eq, Structural)]
pub enum Value {
    /// A switch.
    Flag(bool),
    /// A whole number, written without a decimal point.
    Whole(i64),
    /// A number written with a decimal point, in billionths.
    Real(i128),
    /// Anything else.
    Other,
}

/// The lists of a settings document.
#[derive(Clone, Copy, Debug, PartialEq, Eq, Structural)]
pub enum Section {
    Settings,
    Pong,
    Circles,
    Avoider,
}

/// What a settings document holds under each of the four names: the list
/// that stands there, or nothing where the name is missing or names
/// something else than a list.
pub struct Document {
    pub settings: Option<Vec<Value>>,
    pub pong: Option<Vec<Value>>,
    pub circles: Option<Vec<Value>>,
    pub avoider: Option<Vec<Value>>,
}

/// Why a document gives no settings.
#[derive(Clone, Copy, Debug, PartialEq, Eq, Structural)]
pub enum ConfigError {
    /// The document has no list under this name.
    MissingSection(Section),
    /// The entry at this place of the list is missing or is not what has to
    /// stand there.
    InvalidField(Section, usize),
}

/// The entry at `index`, where the list has one.
pub open spec fn entry_spec(list: Seq<Value>, index: int) -> Value {
    if 0 <= index < list.len() {
        list[index]
    } else {
        Value::Other
    }
}

/// The switch that a value is.
pub open spec fn flag_spec(value: Value) -> Option<bool> {
    match value {
        Value::Flag(on) => Some(on),
        _ => None,
    }
}

/// The count that a value is: a whole number in the range of `i32`.
pub open spec fn count_spec(value: Value) -> Option<i32> {
    match value {
        Value::Whole(n) => if i32::MIN <= n <= i32::MAX {
            Some(n as i32)
        } else {
            None
        },
        _ => None,
    }
}

/// The time span in nanoseconds that a value is: a number with a decimal
/// point, read as seconds, that is not negative and within the range of
/// `u64`.
pub open spec fn span_spec(value: Value) -> Option<u64> {
    match value {
        Value::Real(billionths) => if 0 <= billionths <= u64::MAX {
            Some(billionths as u64)
        } else {
            None
        },
        _ => None,
    }
}

/// The speed in thousandths of a pixel per second that a value is: a
/// number with a decimal point, read as pixels per second, within the
/// range of `i32` once it is cut to thousandths.
pub open spec fn speed_spec(value: Value) -> Option<i32> {
    match value {
        Value::Real(billionths) => {
            let thousandths = quotient(billionths as int, BILLIONTHS_PER_THOUSANDTH as int);
            if i32::MIN <= thousandths <= i32::MAX {
                Some(thousandths as i32)
            } else {
                None
            }
        },
        _ => None,
    }
}

/// The place of the first entry of the list for Pong that is not what it
/// has to be: the switch, and for a game that is switched on the speeds of
/// the ball, of the player's paddle and of the machine's paddle.
pub open spec fn pong_fault(list: Seq<Value>) -> Option<usize> {
    if flag_spec(entry_spec(list, 0)).is_none() {
        Some(0usize)
    } else if flag_spec(entry_spec(list, 0)) == Some(false) {
        None
    } else if speed_spec(entry_spec(list, 1)).is_none() {
        Some(1usize)
    } else if speed_spec(entry_spec(list, 2)).is_none() {
        Some(2usize)
    } else if speed_spec(entry_spec(list, 3)).is_none() {
        Some(3usize)
    } else {
        None
    }
}

/// What a list without a fault sets Pong up with.
pub open spec fn pong_spec(list: Seq<Value>) -> Option<PongSettings> {
    if flag_spec(entry_spec(list, 0)) == Some(true) {
        Some(
            PongSettings {
                ball_speed: speed_spec(entry_spec(list, 1)).unwrap(),
                paddle_speed: speed_spec(entry_spec(list, 2)).unwrap(),
                ai_paddle_speed: speed_spec(entry_spec(list, 3)).unwrap(),
            },
        )
    } else {
        None
    }
}

/// The place of the first entry of the list for Circles that is not what
/// it has to be: the switch, and for a game that is switched on the
/// numbers of circles to start with and to stop at, and the time limit.
pub open spec fn circles_fault(list: Seq<Value>) -> Option<usize> {
    if flag_spec(entry_spec(list, 0)).is_none() {
        Some(0usize)
    } else if flag_spec(entry_spec(list, 0)) == Some(false) {
        None
    } else if count_spec(entry_spec(list, 1)).is_none() {
        Some(1usize)
    } else if count_spec(entry_spec(list, 2)).is_none() {
        Some(2usize)
    } else if span_spec(entry_spec(list, 3)).is_none() {
        Some(3usize)
    } else {
        None
    }
}

/// `circles` is what a list without a fault sets Circles up with.
pub open spec fn circles_match(list: Seq<Value>, circles: Option<CirclesSettings>) -> bool {
    if flag_spec(entry_spec(list, 0)) == Some(true) {
        &&& circles.is_some()
        &&& circles.unwrap().amount == count_spec(entry_spec(list, 1)).unwrap()
        &&& circles.unwrap().max_amount == count_spec(entry_spec(list, 2)).unwrap()
        &&& duration_nanos(circles.unwrap().time_limit) == span_spec(entry_spec(list, 3)).unwrap()
    } else {
        circles.is_none()
    }
}

/// The place of the first entry of the list for Avoider that is not what
/// it has to be: the switch, and for a game that is switched on the time
/// limit and the time between two enemies.
pub open spec fn avoider_fault(list: Seq<Value>) -> Option<usize> {
    if flag_spec(entry_spec(list, 0)).is_none() {
        Some(0usize)
    } else if flag_spec(entry_spec(list, 0)) == Some(false) {
        None
    } else if span_spec(entry_spec(list, 1)).is_none() {
        Some(1usize)
    } else if span_spec(entry_spec(list, 2)).is_none() {
        Some(2usize)
    } else {
        None
    }
}

/// `avoider` is what a list without a fault sets Avoider up with.
pub open spec fn avoider_match(list: Seq<Value>, avoider: Option<AvoiderSettings>) -> bool {
    if flag_spec(entry_spec(list, 0)) == Some(true) {
        &&& avoider.is_some()
        &&& duration_nanos(avoider.unwrap().time_limit) == span_spec(entry_spec(list, 1)).unwrap()
        &&& duration_nanos(avoider.unwrap().spawn_interval) == span_spec(
            entry_spec(list, 2),
        ).unwrap()
    } else {
        avoider.is_none()
    }
}

/// What is wrong with a document, if anything is. The four lists have to
/// be there; then each game's list is gone through, Pong first, and last
/// comes the idle time, the first entry of the list of general settings.
/// The first thing that is wrong is the one that is named.
pub open spec fn fault_spec(doc: Document) -> Option<ConfigError> {
    if doc.settings.is_none() {
        Some(ConfigError::MissingSection(Section::Settings))
    } else if doc.pong.is_none() {
        Some(ConfigError::MissingSection(Section::Pong))
    } else if doc.circles.is_none() {
        Some(ConfigError::MissingSection(Section::Circles))
    } else if doc.avoider.is_none() {
        Some(ConfigError::MissingSection(Section::Avoider))
    } else if pong_fault(doc.pong.unwrap()@).is_some() {
        Some(ConfigError::InvalidField(Section::Pong, pong_fault(doc.pong.unwrap()@).unwrap()))
    } else if circles_fault(doc.circles.unwrap()@).is_some() {
        Some(
            ConfigError::InvalidField(
                Section::Circles,
                circles_fault(doc.circles.unwrap()@).unwrap(),
            ),
        )
    } else if avoider_fault(doc.avoider.unwrap()@).is_some() {
        Some(
            ConfigError::InvalidField(
                Section::Avoider,
                avoider_fault(doc.avoider.unwrap()@).unwrap(),
            ),
        )
    } else if span_spec(entry_spec(doc.settings.unwrap()@, 0)).is_none() {
        Some(ConfigError::InvalidField(Section::Settings, 0))
    } else {
        None
    }
}

/// `settings` is what a document without a fault says.
pub open spec fn settings_match(doc: Document, settings: Settings) -> bool {
    &&& duration_nanos(settings.cooldown) == span_spec(
        entry_spec(doc.settings.unwrap()@, 0),
    ).unwrap()
    &&& settings.pong == pong_spec(doc.pong.unwrap()@)
    &&& circles_match(doc.circles.unwrap()@, settings.circles)
    &&& avoider_match(doc.avoider.unwrap()@, settings.avoider)
}

/// The entry at `index`, where the list has one.
pub fn entry(list: &Vec<Value>, index: usize) -> (value: Value)
    ensures
        value == entry_spec(list@, index as int),
{
    if index < list.len() {
        list[index]
    } else {
        Value::Other
    }
}

/// The switch that a value is.
pub fn flag(value: Value) -> (on: Option<bool>)
    ensures
        on == flag_spec(value),
{
    match value {
        Value::Flag(on) => Some(on),
        _ => None,
    }
}

/// The count that a value is.
pub fn count(value: Value) -> (n: Option<i32>)
    ensures
        n == count_spec(value),
{
    match value {
        Value::Whole(n) => {
            if -2_147_483_648 <= n && n <= 2_147_483_647 {
                Some(n as i32)
            } else {
                None
            }
        },
        _ => None,
    }
}

/// The time span in nanoseconds that a value is.
pub fn span(value: Value) -> (nanos: Option<u64>)
    ensures
        nanos == span_spec(value),
{
    match value {
        Value::Real(billionths) => {
            if 0 <= billionths && billionths <= 18_446_744_073_709_551_615 {
                Some(billionths as u64)
            } else {
                None
            }
        },
        _ => None,
    }
}

/// The speed in thousandths of a pixel per second that a value is.
pub fn speed(value: Value) -> (thousandths: Option<i32>)
    ensures
        thousandths == speed_spec(value),
{
    match value {
        Value::Real(billionths) => {
            let cut: i128 = if billionths >= 0 {
                billionths / 1_000_000
            } else if billionths == i128::MIN {
                -170_141_183_460_469_231_731_687_303_715_884
            } else {
                -((-billionths) / 1_000_000)
            };
            if -2_147_483_648 <= cut && cut <= 2_147_483_647 {
                Some(cut as i32)
            } else {
                None
            }
        },
        _ => None,
    }
}

/// What the list for Pong sets the game up with, or the place of its
/// first fault.
pub fn read_pong(list: &Vec<Value>) -> (result: Result<Option<PongSettings>, usize>)
    ensures
        match result {
            Ok(pong) => pong_fault(list@).is_none() && pong == pong_spec(list@),
            Err(i) => pong_fault(list@) == Some(i),
        },
{
    match flag(entry(list, 0)) {
        None => Err(0),
        Some(false) => Ok(None),
        Some(true) => {
            let ball_speed = match speed(entry(list, 1)) {
                Some(v) => v,
                None => {
                    return Err(1);
                },
            };
            let paddle_speed = match speed(entry(list, 2)) {
                Some(v) => v,
                None => {
                    return Err(2);
                },
            };
            let ai_paddle_speed = match speed(entry(list, 3)) {
                Some(v) => v,
                None => {
                    return Err(3);
                },
            };
            Ok(Some(PongSettings { ball_speed, paddle_speed, ai_paddle_speed }))
        },
    }
}

/// What the list for Circles sets the game up with, or the place of its
/// first fault.
pub fn read_circles(list: &Vec<Value>) -> (result: Result<Option<CirclesSettings>, usize>)
    ensures
        match result {
            Ok(circles) => circles_fault(list@).is_none() && circles_match(list@, circles),
            Err(i) => circles_fault(list@) == Some(i),
        },
{
    match flag(entry(list, 0)) {
        None => Err(0),
        Some(false) => Ok(None),
        Some(true) => {
            let amount = match count(entry(list, 1)) {
                Some(v) => v,
                None => {
                    return Err(1);
                },
            };
            let max_amount = match count(entry(list, 2)) {
                Some(v) => v,
                None => {
                    return Err(2);
                },
            };
            let time_limit = match span(entry(list, 3)) {
                Some(v) => span_of(v),
                None => {
                    return Err(3);
                },
            };
            Ok(Some(CirclesSettings { amount, max_amount, time_limit }))
        },
    }
}

/// What the list for Avoider sets the game up with, or the place of its
/// first fault.
pub fn read_avoider(list: &Vec<Value>) -> (result: Result<Option<AvoiderSettings>, usize>)
    ensures
        match result {
            Ok(avoider) => avoider_fault(list@).is_none() && avoider_match(list@, avoider),
            Err(i) => avoider_fault(list@) == Some(i),
        },
{
    match flag(entry(list, 0)) {
        None => Err(0),
        Some(false) => Ok(None),
        Some(true) => {
            let time_limit = match span(entry(list, 1)) {
                Some(v) => span_of(v),
                None => {
                    return Err(1);
                },
            };
            let spawn_interval = match span(entry(list, 2)) {
                Some(v) => span_of(v),
                None => {
                    return Err(2);
                },
            };
            Ok(Some(AvoiderSettings { time_limit, spawn_interval }))
        },
    }
}

/// The settings that a document says, or the first thing that is wrong
/// with it.
pub fn read_settings(doc: &Document) -> (result: Result<Settings, ConfigError>)
    ensures
        match result {
            Ok(settings) => fault_spec(*doc).is_none() && settings_match(*doc, settings),
            Err(e) => fault_spec(*doc) == Some(e),
        },
{
    let general = match &doc.settings {
        Some(list) => list,
        None => {
            return Err(ConfigError::MissingSection(Section::Settings));
        },
    };
    let pong_list = match &doc.pong {
        Some(list) => list,
        None => {
            return Err(ConfigError::MissingSection(Section::Pong));
        },
    };
    let circles_list = match &doc.circles {
        Some(list) => list,
        None => {
            return Err(ConfigError::MissingSection(Section::Circles));
        },
    };
    let avoider_list = match &doc.avoider {
        Some(list) => list,
        None => {
            return Err(ConfigError::MissingSection(Section::Avoider));
        },
    };
    let pong = match read_pong(pong_list) {
        Ok(pong) => pong,
        Err(i) => {
            return Err(ConfigError::InvalidField(Section::Pong, i));
        },
    };
    let circles = match read_circles(circles_list) {
        Ok(circles) => circles,
        Err(i) => {
            return Err(ConfigError::InvalidField(Section::Circles, i));
        },
    };
    let avoider = match read_avoider(avoider_list) {
        Ok(avoider) => avoider,
        Err(i) => {
            return Err(ConfigError::InvalidField(Section::Avoider, i));
        },
    };
    let cooldown = match span(entry(general, 0)) {
        Some(v) => span_of(v),
        None => {
            return Err(ConfigError::InvalidField(Section::Settings, 0));
        },
    };
    Ok(Settings { cooldown, pong, circles, avoider })
}

} // verus!
