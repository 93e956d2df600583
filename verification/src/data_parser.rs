//! The decoder that reports record by record.
//!
//! It knows the short logger status record and the weather sample, does not hold the
//! declared payload length against the buffer, and gives one result per record, so
//! that a frame that is cut short still yields the records before the cut. It also
//! reads the lines that stations send as text, and byte lists that were saved as text.

use crate::error::IWError;
use crate::fp2::Fp2;
use crate::process_data::{
    read_fp2, read_timestamp, spec_fp2_at, spec_timestamp_at, spec_validate, spec_weather_samples,
    IWLoggerStatus, IWWeatherData, StationDataView,
};
use crate::text::{field_end, find_field_end, parse_decimal, trim_range, trimmed, Trim};
use crate::timestamp::Timestamp;
use chrono::NaiveDateTime;
use regex::Regex;
use vstd::prelude::*;
use vstd::slice::slice_subrange;
use vstd::utf8::{decode_utf8, valid_utf8};

verus! {

/// `std::num::ParseFloatError`, carried through as it is.
#[verifier::external_type_specification]
#[verifier::external_body]
pub struct ExParseFloatError(std::num::ParseFloatError);

/// `std::num::ParseIntError`, carried through as it is.
#[verifier::external_type_specification]
#[verifier::external_body]
pub struct ExParseIntError(std::num::ParseIntError);

/// `std::str::Utf8Error`, carried through as it is.
#[verifier::external_type_specification]
#[verifier::external_body]
pub struct ExUtf8Error(std::str::Utf8Error);

/// The actual data sent from each weather station.
#[derive(Debug, Clone, Copy, PartialEq, Eq, Structural)]
pub struct WeatherStationData {
    pub timestamp: Timestamp,
    pub air_temperature: Fp2,
    pub air_relative_humidity: Fp2,
    pub solar_radiation: Fp2,
    pub soil_water_content: Fp2,
    pub soil_temperature: Fp2,
    pub wind_speed: Fp2,
    pub wind_max: Fp2,
    pub wind_direction: Fp2,
    pub precipitation: Fp2,
    pub air_pressure: Fp2,
}

/// One record: battery data only, or everything else.
#[derive(Debug, Clone, Copy, PartialEq, Eq, Structural)]
pub enum StationDataType {
    /// The time stamp, the two battery voltages and the wind diagnosis.
    SimpleData(Timestamp, Fp2, Fp2, Fp2),
    /// The time stamp and all the other data values.
    MultipleData(WeatherStationData),
}

/// What can go wrong during parsing.
#[derive(Debug, PartialEq)]
pub enum ParseError {
    EmptyBuffer,
    InvalidDataHeader,
    NoTimeStamp,
    WrongNumberOfColumns,
    ParseFloatError(std::num::ParseFloatError),
    Utf8Error(std::str::Utf8Error),
    IOError,
    ParseIntError(std::num::ParseIntError),
}

impl From<std::num::ParseFloatError> for ParseError {
    fn from(err: std::num::ParseFloatError) -> (e: ParseError) {
        ParseError::ParseFloatError(err)
    }
}

impl vstd::std_specs::convert::FromSpecImpl<std::num::ParseFloatError> for ParseError {
    open spec fn obeys_from_spec() -> bool {
        true
    }

    open spec fn from_spec(err: std::num::ParseFloatError) -> ParseError {
        ParseError::ParseFloatError(err)
    }
}

impl From<std::str::Utf8Error> for ParseError {
    fn from(err: std::str::Utf8Error) -> (e: ParseError) {
        ParseError::Utf8Error(err)
    }
}

impl vstd::std_specs::convert::FromSpecImpl<std::str::Utf8Error> for ParseError {
    open spec fn obeys_from_spec() -> bool {
        true
    }

    open spec fn from_spec(err: std::str::Utf8Error) -> ParseError {
        ParseError::Utf8Error(err)
    }
}

impl From<std::num::ParseIntError> for ParseError {
    fn from(err: std::num::ParseIntError) -> (e: ParseError) {
        ParseError::ParseIntError(err)
    }
}

impl vstd::std_specs::convert::FromSpecImpl<std::num::ParseIntError> for ParseError {
    open spec fn obeys_from_spec() -> bool {
        true
    }

    open spec fn from_spec(err: std::num::ParseIntError) -> ParseError {
        ParseError::ParseIntError(err)
    }
}

/// `ToString::to_string` on a `std::num::ParseFloatError`: the text that std has for
/// the error. Nothing is claimed of it.
#[verifier::external_body]
pub(crate) fn parse_float_error_text(e: &std::num::ParseFloatError) -> String {
    e.to_string()
}

/// `ToString::to_string` on a `std::num::ParseIntError`: the text that std has for the
/// error. Nothing is claimed of it.
#[verifier::external_body]
pub(crate) fn parse_int_error_text(e: &std::num::ParseIntError) -> String {
    e.to_string()
}

/// `ToString::to_string` on a `std::str::Utf8Error`: the text that std has for the
/// error. Nothing is claimed of it.
#[verifier::external_body]
pub(crate) fn utf8_error_text(e: &std::str::Utf8Error) -> String {
    e.to_string()
}

impl ParseError {
    /// What every description of the error starts with. For an error that carries
    /// none of std's errors it is the whole description.
    pub open spec fn spec_message_start(&self) -> Seq<char> {
        match self {
            ParseError::EmptyBuffer => "Empty buffer"@,
            ParseError::InvalidDataHeader => "Invalid data header"@,
            ParseError::NoTimeStamp => "Invalid data: no time stamp found"@,
            ParseError::WrongNumberOfColumns => {
                "Invalid data: wrong number of columns (allowed: 3 or 11)"@
            },
            ParseError::ParseFloatError(_) => "Parse float error: "@,
            ParseError::Utf8Error(_) => "UFT8 error: "@,
            ParseError::IOError => "IOError"@,
            ParseError::ParseIntError(_) => "Parse int error: "@,
        }
    }

    /// Whether the error carries one of std's errors, whose text ends the description.
    pub open spec fn has_detail(&self) -> bool {
        self is ParseFloatError || self is Utf8Error || self is ParseIntError
    }

    /// Describes the error in a line for the log.
    pub fn message(&self) -> (text: String)
        ensures
            self.spec_message_start().is_prefix_of(text@),
            !self.has_detail() ==> text@ == self.spec_message_start(),
    {
        let mut text = match self {
            ParseError::EmptyBuffer => String::from_str("Empty buffer"),
            ParseError::InvalidDataHeader => String::from_str("Invalid data header"),
            ParseError::NoTimeStamp => String::from_str("Invalid data: no time stamp found"),
            ParseError::WrongNumberOfColumns => String::from_str(
                "Invalid data: wrong number of columns (allowed: 3 or 11)",
            ),
            ParseError::ParseFloatError(_) => String::from_str("Parse float error: "),
            ParseError::Utf8Error(_) => String::from_str("UFT8 error: "),
            ParseError::IOError => String::from_str("IOError"),
            ParseError::ParseIntError(_) => String::from_str("Parse int error: "),
        };
        let ghost start = text@;
        match self {
            ParseError::ParseFloatError(e) => {
                let detail = parse_float_error_text(e);
                text.append(detail.as_str());
            },
            ParseError::Utf8Error(e) => {
                let detail = utf8_error_text(e);
                text.append(detail.as_str());
            },
            ParseError::ParseIntError(e) => {
                let detail = parse_int_error_text(e);
                text.append(detail.as_str());
            },
            _ => {},
        }
        assert(text@.subrange(0, start.len() as int) =~= start);
        text
    }
}

/// The battery record that the first 14 bytes of `b` hold.
pub open spec fn spec_battery(b: Seq<u8>) -> StationDataType
    recommends
        b.len() >= 14,
{
    StationDataType::SimpleData(
        spec_timestamp_at(b, 0),
        spec_fp2_at(b, 8),
        spec_fp2_at(b, 10),
        spec_fp2_at(b, 12),
    )
}

/// The weather record that the first 28 bytes of `b` hold.
pub open spec fn spec_multiple(b: Seq<u8>) -> StationDataType
    recommends
        b.len() >= 28,
{
    StationDataType::MultipleData(
        WeatherStationData {
            timestamp: spec_timestamp_at(b, 0),
            air_temperature: spec_fp2_at(b, 8),
            air_relative_humidity: spec_fp2_at(b, 10),
            solar_radiation: spec_fp2_at(b, 12),
            soil_water_content: spec_fp2_at(b, 14),
            soil_temperature: spec_fp2_at(b, 16),
            wind_speed: spec_fp2_at(b, 18),
            wind_max: spec_fp2_at(b, 20),
            wind_direction: spec_fp2_at(b, 22),
            precipitation: spec_fp2_at(b, 24),
            air_pressure: spec_fp2_at(b, 26),
        },
    )
}

/// The result for a block that should hold a weather record: the record, or a short
/// read where the block has fewer than 28 bytes.
pub open spec fn spec_parse_multiple(b: Seq<u8>) -> Result<StationDataType, ParseError> {
    if b.len() >= 28 {
        Ok(spec_multiple(b))
    } else {
        Err(ParseError::IOError)
    }
}

/// The number of blocks of up to 28 bytes that `len` bytes fall into.
pub open spec fn spec_chunk_count(len: int) -> int {
    (len + 27) / 28
}

/// The `i`-th block of up to 28 bytes of `p`; only the last one may be shorter.
pub open spec fn spec_block(p: Seq<u8>, i: int) -> Seq<u8>
    recommends
        0 <= i < spec_chunk_count(p.len() as int),
{
    p.subrange(
        28 * i,
        if 28 * i + 28 <= p.len() {
            28 * i + 28
        } else {
            p.len() as int
        },
    )
}

/// The results that a frame gives, one per record.
pub open spec fn spec_parse_binary_data(b: Seq<u8>) -> Seq<Result<StationDataType, ParseError>> {
    if b.len() <= 3 {
        seq![Err(ParseError::EmptyBuffer)]
    } else if b[0] != 2 {
        seq![Err(ParseError::InvalidDataHeader)]
    } else if b.len() == 3 + 14 {
        seq![Ok(spec_battery(b.subrange(3, 17)))]
    } else if b.len() >= 3 + 28 {
        Seq::new(
            spec_chunk_count(b.len() - 3) as nat,
            |i: int| spec_parse_multiple(spec_block(b.subrange(3, b.len() as int), i)),
        )
    } else {
        seq![Err(ParseError::InvalidDataHeader)]
    }
}

/// Decodes a battery record from the first 14 bytes of `buffer`; a shorter buffer is a
/// short read.
pub fn parse_binary_data_battery(buffer: &[u8]) -> (r: Result<StationDataType, ParseError>)
    ensures
        buffer@.len() >= 14 ==> r == Ok::<StationDataType, ParseError>(spec_battery(buffer@)),
        buffer@.len() < 14 ==> r == Err::<StationDataType, ParseError>(ParseError::IOError),
{
    if buffer.len() < 14 {
        return Err(ParseError::IOError);
    }
    Ok(
        StationDataType::SimpleData(
            read_timestamp(buffer, 0),
            read_fp2(buffer, 8),
            read_fp2(buffer, 10),
            read_fp2(buffer, 12),
        ),
    )
}

/// Decodes a weather record from the first 28 bytes of `buffer`; a shorter buffer is a
/// short read.
pub fn parse_binary_data_multiple(buffer: &[u8]) -> (r: Result<StationDataType, ParseError>)
    ensures
        r == spec_parse_multiple(buffer@),
{
    if buffer.len() < 28 {
        return Err(ParseError::IOError);
    }
    Ok(
        StationDataType::MultipleData(
            WeatherStationData {
                timestamp: read_timestamp(buffer, 0),
                air_temperature: read_fp2(buffer, 8),
                air_relative_humidity: read_fp2(buffer, 10),
                solar_radiation: read_fp2(buffer, 12),
                soil_water_content: read_fp2(buffer, 14),
                soil_temperature: read_fp2(buffer, 16),
                wind_speed: read_fp2(buffer, 18),
                wind_max: read_fp2(buffer, 20),
                wind_direction: read_fp2(buffer, 22),
                precipitation: read_fp2(buffer, 24),
                air_pressure: read_fp2(buffer, 26),
            },
        ),
    )
}

/// Parses all the data that is sent (as binary) from the weather station.
///
/// A frame of 17 bytes holds one battery record. A frame of 31 bytes or more holds
/// weather records in blocks of 28 bytes, and a last block that is cut short gives an
/// error of its own after the records before it.
pub fn parse_binary_data(buffer: &[u8]) -> (r: Vec<Result<StationDataType, ParseError>>)
    ensures
        r@ == spec_parse_binary_data(buffer@),
{
    let mut result: Vec<Result<StationDataType, ParseError>> = Vec::new();
    let len = buffer.len();
    if len <= 3 {
        result.push(Err(ParseError::EmptyBuffer));
    } else if buffer[0] != 2 {
        result.push(Err(ParseError::InvalidDataHeader));
    } else if len == 17 {
        result.push(parse_binary_data_battery(slice_subrange(buffer, 3, len)));
    } else if len >= 31 {
        let payload = slice_subrange(buffer, 3, len);
        let payload_len = len - 3;
        let mut offset: usize = 0;
        while offset < payload_len
            invariant
                payload_len == payload@.len(),
                offset <= payload_len,
                offset == 28 * result@.len() || offset == payload_len,
                offset == payload_len ==> result@.len() == spec_chunk_count(payload_len as int),
                offset < payload_len ==> result@.len() < spec_chunk_count(payload_len as int),
                forall|k: int|
                    0 <= k < result@.len() ==> result@[k] == spec_parse_multiple(
                        spec_block(payload@, k),
                    ),
            decreases payload_len - offset,
        {
            let end = if payload_len - offset < 28 {
                payload_len
            } else {
                offset + 28
            };
            let chunk = slice_subrange(payload, offset, end);
            assert(chunk@ == spec_block(payload@, result@.len() as int));
            result.push(parse_binary_data_multiple(chunk));
            offset = end;
        }
    } else {
        result.push(Err(ParseError::InvalidDataHeader));
    }
    assert(result@ =~= spec_parse_binary_data(buffer@));
    result
}

/// A logger status as a battery record: the same time stamp and the same three numbers.
pub open spec fn spec_simple_data(status: IWLoggerStatus) -> StationDataType {
    StationDataType::SimpleData(
        status.timestamp,
        status.solar_battery,
        status.lithium_battery,
        status.wind_diag,
    )
}

/// A weather sample as a weather record: the same time stamp and the same ten numbers.
pub open spec fn spec_multiple_data(sample: IWWeatherData) -> StationDataType {
    StationDataType::MultipleData(
        WeatherStationData {
            timestamp: sample.timestamp,
            air_temperature: sample.air_temperature,
            air_relative_humidity: sample.air_relative_humidity,
            solar_radiation: sample.solar_radiation,
            soil_water_content: sample.soil_water_content,
            soil_temperature: sample.soil_temperature,
            wind_speed: sample.wind_speed,
            wind_max: sample.wind_max,
            wind_direction: sample.wind_direction,
            precipitation: sample.precipitation,
            air_pressure: sample.air_pressure,
        },
    )
}

/// On a frame that the validator of [`crate::process_data`] accepts, this decoder and
/// that one read the same records: the one short logger status, or the same weather
/// samples in the same order.
pub proof fn lemma_decoders_agree(frame: Seq<u8>)
    requires
        spec_validate(frame) is Ok,
    ensures
        match crate::process_data::spec_parse_binary_data(frame) {
            Ok(StationDataView::SingleData(status)) => frame.len() == 17
                ==> spec_parse_binary_data(frame) == seq![
                Ok::<StationDataType, ParseError>(spec_simple_data(status)),
            ],
            Ok(StationDataView::MultipleData(samples)) => {
                &&& spec_parse_binary_data(frame).len() == samples.len()
                &&& forall|i: int|
                    0 <= i < samples.len() ==> spec_parse_binary_data(frame)[i] == Ok::<
                        StationDataType,
                        ParseError,
                    >(spec_multiple_data(#[trigger] samples[i]))
            },
            Err(e) => e == IWError::IO(crate::error::IoFailure::UnexpectedEof),
        },
{
    let payload = frame.subrange(3, frame.len() as int);
    assert(payload.len() == frame.len() - 3);
    if frame.len() == 17 {
        assert(frame.subrange(3, 17) == payload);
    } else if payload.len() != 18 && payload.len() % 28 == 0 {
        let samples = spec_weather_samples(payload);
        assert(spec_chunk_count(payload.len() as int) == payload.len() / 28);
        assert forall|i: int| 0 <= i < samples.len() implies spec_parse_binary_data(frame)[i]
            == Ok::<StationDataType, ParseError>(spec_multiple_data(#[trigger] samples[i])) by {
            assert(spec_block(payload, i) == crate::process_data::spec_chunk(payload, i));
        }
    }
}

/// The pattern that a line of text data must hold somewhere: a time stamp.
pub const TIME_STAMP_PATTERN: &'static str = r"\d{4}-\d{2}-\d{2} \d{2}:\d{2}:\d{2}";

/// The format of the time stamp in the first column of a line of text data.
pub const TIME_STAMP_FORMAT: &'static str = "%Y-%m-%d %H:%M:%S";

/// What the `regex` crate says of `pattern` and `text`: `None` where it does not
/// accept the pattern, else whether the pattern matches anywhere in the text.
pub uninterp spec fn regex_is_match(pattern: Seq<char>, text: Seq<char>) -> Option<bool>;

/// What the `chrono` crate reads out of `text` by `format`: `None` where the text does
/// not fit, else the seconds from 1970-01-01 00:00:00 to the date and time it names.
pub uninterp spec fn date_time_seconds(text: Seq<char>, format: Seq<char>) -> Option<i64>;

/// `regex::Regex::new` on `pattern`, then `Regex::is_match` on `text`. The result is
/// the crate's own; nothing more is claimed here than that it depends on the two
/// texts alone.
#[verifier::external_body]
pub(crate) fn regex_search(pattern: &str, text: &str) -> (r: Option<bool>)
    ensures
        r == regex_is_match(pattern@, text@),
{
    match Regex::new(pattern) {
        Ok(regex) => Some(regex.is_match(text)),
        Err(_) => None,
    }
}

/// `chrono::NaiveDateTime::parse_from_str`, the result handed on as seconds by
/// `and_utc().timestamp()`. The result is the crate's own; nothing more is claimed
/// here than that it depends on the two texts alone.
#[verifier::external_body]
pub(crate) fn parse_date_time(text: &str, format: &str) -> (r: Option<i64>)
    ensures
        r == date_time_seconds(text@, format@),
{
    match NaiveDateTime::parse_from_str(text, format) {
        Ok(date_time) => Some(date_time.and_utc().timestamp()),
        Err(_) => None,
    }
}

/// `std::str::from_utf8`: the text that `bytes` encode, or the error where they are
/// no UTF-8.
#[verifier::external_body]
pub(crate) fn str_from_utf8<'a>(bytes: &'a [u8]) -> (r: Result<&'a str, std::str::Utf8Error>)
    ensures
        r is Ok <==> valid_utf8(bytes@),
        r is Ok ==> r->Ok_0@ == decode_utf8(bytes@),
{
    std::str::from_utf8(bytes)
}

/// `str::parse::<u8>`: the number that `text` is the decimal form of, or the error
/// where it is none: an optional plus sign, at least one ASCII digit, no more than 255.
#[verifier::external_body]
pub(crate) fn parse_u8(text: &str) -> (r: Result<u8, std::num::ParseIntError>)
    ensures
        r is Ok <==> parse_decimal(text@, 255) is Some,
        r is Ok ==> r->Ok_0 == parse_decimal(text@, 255)->0,
{
    text.parse::<u8>()
}

/// A line of text data taken apart. The numbers stay text, as they were sent.
#[derive(Debug, Clone, PartialEq, Eq)]
pub struct TextColumns {
    pub timestamp: Timestamp,
    /// One value where the line holds battery data, ten where it holds all data.
    pub values: Vec<String>,
}

/// The mathematical value of a [`TextColumns`].
pub ghost struct TextColumnsView {
    pub timestamp: Timestamp,
    pub values: Seq<Seq<char>>,
}

impl View for TextColumns {
    type V = TextColumnsView;

    open spec fn view(&self) -> TextColumnsView {
        TextColumnsView { timestamp: self.timestamp, values: self.values.deep_view() }
    }
}

/// The view of a result: the columns by their view, the error as it is.
pub open spec fn text_result_view(r: Result<TextColumns, ParseError>) -> Result<
    TextColumnsView,
    ParseError,
> {
    match r {
        Ok(columns) => Ok(columns@),
        Err(e) => Err(e),
    }
}

/// The columns of a line from position `start` on: the comma-separated fields, each
/// without whatever is no digit at its ends.
pub open spec fn columns_from(s: Seq<char>, start: int) -> Seq<Seq<char>>
    decreases s.len() - start,
{
    if start < 0 || start > s.len() {
        seq![]
    } else {
        let end = field_end(s, ',', start);
        seq![trimmed(s.subrange(start, end), Trim::NonDigits)] + (if end < s.len() {
            columns_from(s, end + 1)
        } else {
            seq![]
        })
    }
}

/// The columns of a line. There is always at least one.
pub open spec fn spec_columns(s: Seq<char>) -> Seq<Seq<char>> {
    columns_from(s, 0)
}

/// What a line is taken for, given whether a time stamp was found in it, what the
/// first column reads as, and the columns: three columns are battery data, of which
/// the second is kept; eleven are all data, of which all but the first are kept.
pub open spec fn spec_classify(
    found: Option<bool>,
    seconds: Option<i64>,
    columns: Seq<Seq<char>>,
) -> Result<TextColumnsView, ParseError> {
    if found != Some(true) {
        Err(ParseError::NoTimeStamp)
    } else {
        match seconds {
            None => Err(ParseError::NoTimeStamp),
            Some(t) => if columns.len() == 3 {
                Ok(
                    TextColumnsView {
                        timestamp: Timestamp { seconds: t },
                        values: columns.subrange(1, 2),
                    },
                )
            } else if columns.len() == 11 {
                Ok(
                    TextColumnsView {
                        timestamp: Timestamp { seconds: t },
                        values: columns.subrange(1, 11),
                    },
                )
            } else {
                Err(ParseError::WrongNumberOfColumns)
            },
        }
    }
}

/// What a line of text data is taken for.
pub open spec fn spec_parse_text(line: Seq<char>) -> Result<TextColumnsView, ParseError> {
    if line.len() == 0 {
        Err(ParseError::EmptyBuffer)
    } else {
        spec_classify(
            regex_is_match(TIME_STAMP_PATTERN@, line),
            date_time_seconds(spec_columns(line)[0], TIME_STAMP_FORMAT@),
            spec_columns(line),
        )
    }
}

/// Splits a line at its commas and takes off each column whatever is no digit at its
/// ends.
pub fn split_columns(line: &str) -> (columns: Vec<String>)
    ensures
        columns.deep_view() == spec_columns(line@),
        columns@.len() >= 1,
{
    let n = line.unicode_len();
    let mut columns: Vec<String> = Vec::new();
    let mut start: usize = 0;
    loop
        invariant_except_break
            start <= n,
            columns.deep_view() + columns_from(line@, start as int) =~= spec_columns(line@),
        invariant
            n == line@.len(),
        ensures
            columns.deep_view() =~= spec_columns(line@),
            columns@.len() >= 1,
        decreases n - start,
    {
        let end = find_field_end(line, ',', start);
        let (a, b) = trim_range(line, start, end, Trim::NonDigits);
        let ghost before = columns.deep_view();
        columns.push(String::from_str(line.substring_char(a, b)));
        assert(columns.deep_view() =~= before.push(line@.subrange(a as int, b as int)));
        if end == n {
            break;
        }
        start = end + 1;
    }
    columns
}

/// Decides what a line is, from what was found out about it: whether it holds a time
/// stamp, what its first column reads as, and its columns.
pub fn classify_text_line(
    found: Option<bool>,
    seconds: Option<i64>,
    columns: &Vec<String>,
) -> (r: Result<TextColumns, ParseError>)
    ensures
        text_result_view(r) == spec_classify(found, seconds, columns.deep_view()),
{
    match found {
        Some(true) => {},
        _ => {
            return Err(ParseError::NoTimeStamp);
        },
    }
    let t = match seconds {
        Some(t) => t,
        None => {
            return Err(ParseError::NoTimeStamp);
        },
    };
    let count = columns.len();
    if count != 3 && count != 11 {
        return Err(ParseError::WrongNumberOfColumns);
    }
    let last: usize = if count == 3 {
        2
    } else {
        11
    };
    let mut values: Vec<String> = Vec::new();
    let mut i: usize = 1;
    while i < last
        invariant
            1 <= i <= last <= columns@.len(),
            values.deep_view() =~= columns.deep_view().subrange(1, i as int),
        decreases last - i,
    {
        let ghost before = values.deep_view();
        values.push(columns[i].clone());
        assert(values.deep_view() =~= before.push(columns@[i as int]@));
        i += 1;
    }
    Ok(TextColumns { timestamp: Timestamp { seconds: t }, values })
}

/// Parses all the data that is sent (as text) from the weather station.
///
/// The bytes must be UTF-8 and hold a time stamp somewhere. The line is split at its
/// commas, the first column is read as the time stamp, and the number of columns
/// tells battery data from all data. A first column that is no time stamp counts as
/// no time stamp at all.
pub fn parse_text_data(buffer: &[u8]) -> (r: Result<TextColumns, ParseError>)
    ensures
        !valid_utf8(buffer@) ==> r matches Err(ParseError::Utf8Error(_)),
        valid_utf8(buffer@) ==> text_result_view(r) == spec_parse_text(decode_utf8(buffer@)),
{
    match str_from_utf8(buffer) {
        Err(e) => Err(ParseError::Utf8Error(e)),
        Ok(line) => {
            if line.unicode_len() == 0 {
                return Err(ParseError::EmptyBuffer);
            }
            let found = regex_search(TIME_STAMP_PATTERN, line);
            let columns = split_columns(line);
            let seconds = parse_date_time(columns[0].as_str(), TIME_STAMP_FORMAT);
            assert(columns@[0]@ == columns.deep_view()[0]);
            classify_text_line(found, seconds, &columns)
        },
    }
}

/// The bytes that a comma-separated list of decimal numbers names, from position
/// `start` on. Whitespace around a number is set aside. One field that is no number
/// from 0 to 255 spoils the list.
pub open spec fn byte_list_from(s: Seq<char>, start: int) -> Option<Seq<u8>>
    decreases s.len() - start,
{
    if start < 0 || start > s.len() {
        Some(seq![])
    } else {
        let end = field_end(s, ',', start);
        match parse_decimal(trimmed(s.subrange(start, end), Trim::Whitespace), 255) {
            None => None,
            Some(value) => if end < s.len() {
                match byte_list_from(s, end + 1) {
                    None => None,
                    Some(rest) => Some(seq![value as u8] + rest),
                }
            } else {
                Some(seq![value as u8])
            },
        }
    }
}

/// The bytes that a comma-separated list of decimal numbers names.
pub open spec fn spec_byte_list(s: Seq<char>) -> Option<Seq<u8>> {
    byte_list_from(s, 0)
}

/// Reads a list of bytes that was saved as text: decimal numbers with commas between
/// them, as in `2, 0, 14, 128`.
pub fn parse_byte_list(text: &str) -> (r: Result<Vec<u8>, ParseError>)
    ensures
        match r {
            Ok(bytes) => spec_byte_list(text@) == Some(bytes@),
            Err(e) => spec_byte_list(text@) is None && e is ParseIntError,
        },
{
    let n = text.unicode_len();
    let mut result: Vec<u8> = Vec::new();
    let mut start: usize = 0;
    loop
        invariant_except_break
            start <= n,
            spec_byte_list(text@) == match byte_list_from(text@, start as int) {
                None => None::<Seq<u8>>,
                Some(rest) => Some(result@ + rest),
            },
        invariant
            n == text@.len(),
        ensures
            spec_byte_list(text@) == Some(result@),
        decreases n - start,
    {
        let end = find_field_end(text, ',', start);
        let (a, b) = trim_range(text, start, end, Trim::Whitespace);
        let ghost before = result@;
        match parse_u8(text.substring_char(a, b)) {
            Ok(value) => {
                result.push(value);
            },
            Err(e) => {
                return Err(ParseError::ParseIntError(e));
            },
        }
        if end == n {
            assert(result@ =~= before + seq![result@.last()]);
            break;
        }
        proof {
            let rest = byte_list_from(text@, end as int + 1);
            if rest is Some {
                assert(result@ + rest->0 =~= before + (seq![result@.last()] + rest->0));
            }
        }
        start = end + 1;
    }
    Ok(result)
}

/// Reads a list of bytes that was saved as text and decodes the frame they make. A
/// list that cannot be read gives the one error.
pub fn parse_binary_data_from_text(text: &str) -> (r: Vec<Result<StationDataType, ParseError>>)
    ensures
        match spec_byte_list(text@) {
            Some(bytes) => r@ == spec_parse_binary_data(bytes),
            None => r@.len() == 1 && r@[0] is Err && r@[0]->Err_0 is ParseIntError,
        },
{
    match parse_byte_list(text) {
        Ok(data) => parse_binary_data(data.as_slice()),
        Err(e) => {
            let mut result: Vec<Result<StationDataType, ParseError>> = Vec::new();
            result.push(Err(e));
            result
        },
    }
}

} // verus!
