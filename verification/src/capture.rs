//! Resolving an image's capture timestamp: the embedded capture time where
//! the metadata carries one, else the client's last-modified time read as
//! epoch milliseconds, else the clock as absolute fallback.

use vstd::prelude::*;
use crate::error::AppError;
use crate::utils::{is_decimal_string, decimal_value, parse_decimal_u64};

verus! {

/// The metadata tag that carries the embedded capture time.
pub open spec fn spec_datetime_original_tag() -> Seq<char> {
    "DateTimeOriginal"@
}

/// The value of the first field with the given tag, if any.
pub open spec fn field_lookup(fields: Seq<(Seq<char>, Seq<char>)>, tag: Seq<char>) -> Option<
    Seq<char>,
>
    decreases fields.len(),
{
    if fields.len() == 0 {
        None
    } else if fields[0].0 == tag {
        Some(fields[0].1)
    } else {
        field_lookup(fields.drop_first(), tag)
    }
}

/// Finds the first field with the given tag.
pub fn find_field<'a>(fields: &'a Vec<(String, String)>, tag: &String) -> (r: Option<&'a String>)
    ensures
        match r {
            Some(v) => field_lookup(fields.deep_view(), tag@) == Some(v@),
            None => field_lookup(fields.deep_view(), tag@) is None,
        },
{
    let mut i: usize = 0;
    proof {
        assert(fields.deep_view().skip(0) =~= fields.deep_view());
    }
    while i < fields.len()
        invariant
            0 <= i <= fields.len(),
            i <= fields.deep_view().len(),
            field_lookup(fields.deep_view(), tag@) == field_lookup(
                fields.deep_view().skip(i as int),
                tag@,
            ),
        decreases fields.len() - i,
    {
        proof {
            assert(fields.deep_view().skip(i as int)[0] == fields.deep_view()[i as int]);
            assert(fields.deep_view()[i as int] == (fields@[i as int].0@, fields@[i as int].1@));
            assert(fields.deep_view().skip(i as int).drop_first() =~= fields.deep_view().skip(
                i + 1,
            ));
        }
        if fields[i].0.eq(tag) {
            return Some(&fields[i].1);
        }
        i = i + 1;
    }
    proof {
        assert(fields.deep_view().skip(fields.deep_view().len() as int) =~= Seq::<(
            Seq<char>,
            Seq<char>,
        )>::empty());
    }
    None
}

/// The instant jiff renders for an embedded capture time of the shape
/// `%Y-%m-%d %H:%M:%S`, taken at UTC offset zero — or nothing where the text
/// does not parse or the moment is unrepresentable. A function of the text
/// alone.
pub uninterp spec fn exif_timestamp_of(s: Seq<char>) -> Option<Seq<char>>;

/// Relies on jiff's `strtime::parse` with format `%Y-%m-%d %H:%M:%S`,
/// `BrokenDownTime::set_offset` with offset zero, `to_timestamp`, and
/// `Timestamp`'s rendering: the result depends on the characters alone.
#[verifier::external_body]
fn parse_exif_datetime(s: &str) -> (r: Option<String>)
    ensures
        r is Some <==> exif_timestamp_of(s@) is Some,
        r is Some ==> r->0@ == exif_timestamp_of(s@)->0,
{
    let mut parsed = jiff::fmt::strtime::parse("%Y-%m-%d %H:%M:%S", s).ok()?;
    parsed.set_offset(Some(jiff::tz::offset(0)));
    Some(parsed.to_timestamp().ok()?.to_string())
}

/// The instant jiff renders for a count of epoch milliseconds, or nothing
/// where it lies outside the representable range. A function of the count
/// alone.
pub uninterp spec fn millis_timestamp_of(ms: i64) -> Option<Seq<char>>;

/// Relies on jiff's `Timestamp::from_millisecond` and `Timestamp`'s
/// rendering: the result depends on the millisecond count alone.
#[verifier::external_body]
fn format_epoch_millis(ms: i64) -> (r: Option<String>)
    ensures
        r is Some <==> millis_timestamp_of(ms) is Some,
        r is Some ==> r->0@ == millis_timestamp_of(ms)->0,
{
    Some(jiff::Timestamp::from_millisecond(ms).ok()?.to_string())
}

/// Relies on jiff's `Timestamp::now` and `Timestamp`'s rendering. The result
/// depends on the clock, so nothing is promised of it.
#[verifier::external_body]
fn now_timestamp() -> (r: String) {
    jiff::Timestamp::now().to_string()
}

/// Where a capture timestamp comes from, for given metadata fields and a
/// given last-modified part: the embedded capture time where one is present
/// (and an upload with an unparseable one is rejected), else the
/// last-modified text read as epoch milliseconds, else the clock.
pub enum CaptureResolution {
    FromExif(Seq<char>),
    FromMillis(Seq<char>),
    FromClock,
    Unparseable,
}

/// The resolution the pipeline applies, as a function of the metadata fields
/// and the last-modified text.
pub open spec fn spec_capture_resolution(
    fields: Seq<(Seq<char>, Seq<char>)>,
    last_modified: Seq<char>,
) -> CaptureResolution {
    match field_lookup(fields, spec_datetime_original_tag()) {
        Some(v) => match exif_timestamp_of(v) {
            Some(ts) => CaptureResolution::FromExif(ts),
            None => CaptureResolution::Unparseable,
        },
        None => {
            if is_decimal_string(last_modified) && decimal_value(last_modified) <= i64::MAX {
                match millis_timestamp_of(decimal_value(last_modified) as i64) {
                    Some(ts) => CaptureResolution::FromMillis(ts),
                    None => CaptureResolution::FromClock,
                }
            } else {
                CaptureResolution::FromClock
            }
        },
    }
}

/// Resolves the capture timestamp: the embedded capture time if the metadata
/// carries one (rejecting the upload where it does not parse), else the
/// last-modified part interpreted as epoch milliseconds, else the current
/// time as absolute fallback.
pub fn get_capture_timestamp(fields: &Vec<(String, String)>, last_modified: &String) -> (r: Result<
    String,
    AppError,
>)
    ensures
        r is Ok <==> !(spec_capture_resolution(fields.deep_view(), last_modified@)
            is Unparseable),
        spec_capture_resolution(fields.deep_view(), last_modified@) matches
            CaptureResolution::FromExif(ts) ==> (r matches Ok(v) && v@ == ts),
        spec_capture_resolution(fields.deep_view(), last_modified@) matches
            CaptureResolution::FromMillis(ts) ==> (r matches Ok(v) && v@ == ts),
        spec_capture_resolution(fields.deep_view(), last_modified@) is Unparseable ==> (
        r matches Err(e) && e is DateParseError),
{
    let tag = "DateTimeOriginal".to_owned();
    match find_field(fields, &tag) {
        Some(raw) => {
            proof {
                reveal_strlit("DateTimeOriginal");
            }
            match parse_exif_datetime(raw.as_str()) {
                Some(ts) => Ok(ts),
                None => Err(
                    AppError::DateParseError("embedded capture time does not parse".to_owned()),
                ),
            }
        },
        None => {
            proof {
                reveal_strlit("DateTimeOriginal");
            }
            match parse_decimal_u64(last_modified.as_str()) {
                Some(ms) if ms <= i64::MAX as u64 => match format_epoch_millis(ms as i64) {
                    Some(ts) => Ok(ts),
                    None => Ok(now_timestamp()),
                },
                _ => Ok(now_timestamp()),
            }
        },
    }
}

} // verus!
