//! Decoding of one received message: frame prefix, record shape, records.
//!
//! A message is a preamble of [`HEADER_LENGTH1`] bytes, then a frame: the marker byte
//! `2`, the payload length as two bytes (high byte first), and the payload. The payload
//! is one logger status record, short or extended, or any number of weather samples.

use crate::error::{IWError, IoFailure};
use crate::fp2::{decode_fp2, fp2_value, Fp2};
use crate::timestamp::{spec_timestamp, u32_to_timestamp, Timestamp};
use crate::wire::{read_u16_be, read_u32_be, read_u32_le, spec_u16_be, spec_u32_be, spec_u32_le};
use vstd::prelude::*;
use vstd::slice::slice_subrange;

verus! {

/// Length of the preamble that precedes the frame.
pub const HEADER_LENGTH1: usize = 48;

/// Length of the frame prefix: marker byte and declared payload length.
pub const HEADER_LENGTH2: usize = 3;

/// Width of a 32-bit field.
pub const ULONG_LEN: usize = 4;

/// Width of an FP2 field.
pub const FP2_LEN: usize = 2;

/// Length of a short logger status record: two 32-bit fields and three FP2 fields.
pub const LOGGER_STATUS1_LENGTH: usize = 14;

/// Length of an extended logger status record: the short record and a 32-bit counter.
pub const LOGGER_STATUS2_LENGTH: usize = 18;

/// Length of one weather sample: two 32-bit fields and ten FP2 fields.
pub const WEATHER_DATA_LENGTH: usize = 28;

/// The marker byte that opens a frame.
pub const FRAME_MARKER: u8 = 2;

/// A housekeeping record of the datalogger.
#[derive(Clone, Copy, Debug, PartialEq, Eq, Structural)]
pub struct IWLoggerStatus {
    pub timestamp: Timestamp,
    pub solar_battery: Fp2,
    pub lithium_battery: Fp2,
    pub wind_diag: Fp2,
    /// Counter of the storage card; `0` where the record is the short one.
    pub cf_card: u32,
}

/// One sample of the ten weather sensors.
#[derive(Clone, Copy, Debug, PartialEq, Eq, Structural)]
pub struct IWWeatherData {
    pub timestamp: Timestamp,
    pub air_temperature: Fp2,
    pub air_relative_humidity: Fp2,
    pub solar_radiation: Fp2,
    pub soil_water_content: Fp2,
    pub soil_temperature: Fp2,
    pub wind_speed: Fp2,
    pub wind_max: Fp2,
    pub wind_direction: Fp2,
    pub precipitation: Fp2,
    pub air_pressure: Fp2,
}

/// What one payload decodes to.
#[derive(Clone, Debug, PartialEq, Eq)]
pub enum IWStationData {
    SingleData(IWLoggerStatus),
    MultipleData(Vec<IWWeatherData>),
}

/// The mathematical value of an [`IWStationData`].
pub ghost enum StationDataView {
    SingleData(IWLoggerStatus),
    MultipleData(Seq<IWWeatherData>),
}

impl View for IWStationData {
    type V = StationDataView;

    open spec fn view(&self) -> StationDataView {
        match self {
            IWStationData::SingleData(status) => StationDataView::SingleData(*status),
            IWStationData::MultipleData(samples) => StationDataView::MultipleData(samples@),
        }
    }
}

/// What becomes of a message whose preamble was complete.
#[derive(Clone, Debug, PartialEq, Eq)]
pub enum ConnectionOutcome {
    /// The frame decoded; the records go to the sink.
    Decoded(IWStationData),
    /// The frame did not decode; the error is reported and the message dropped.
    Rejected(IWError),
}

/// The FP2 number whose two bytes start at `offset`.
pub open spec fn spec_fp2_at(b: Seq<u8>, offset: int) -> Fp2
    recommends
        0 <= offset,
        offset + 2 <= b.len(),
{
    fp2_value(spec_u16_be(b.subrange(offset, offset + 2)) as u16)
}

/// The instant whose four-byte second count starts at `offset`.
pub open spec fn spec_timestamp_at(b: Seq<u8>, offset: int) -> Timestamp
    recommends
        0 <= offset,
        offset + 4 <= b.len(),
{
    spec_timestamp(spec_u32_le(b.subrange(offset, offset + 4)) as u32)
}

/// The short logger status record that the first 14 bytes of `b` hold. Bytes 4 to 7 are
/// reserved and have no part in the result.
pub open spec fn spec_logger_status1(b: Seq<u8>) -> IWLoggerStatus
    recommends
        b.len() >= 14,
{
    IWLoggerStatus {
        timestamp: spec_timestamp_at(b, 0),
        solar_battery: spec_fp2_at(b, 8),
        lithium_battery: spec_fp2_at(b, 10),
        wind_diag: spec_fp2_at(b, 12),
        cf_card: 0,
    }
}

/// The extended logger status record that the first 18 bytes of `b` hold.
pub open spec fn spec_logger_status2(b: Seq<u8>) -> IWLoggerStatus
    recommends
        b.len() >= 18,
{
    IWLoggerStatus {
        timestamp: spec_timestamp_at(b, 0),
        solar_battery: spec_fp2_at(b, 8),
        lithium_battery: spec_fp2_at(b, 10),
        wind_diag: spec_fp2_at(b, 12),
        cf_card: spec_u32_be(b.subrange(14, 18)) as u32,
    }
}

/// The weather sample that the first 28 bytes of `b` hold. Bytes 4 to 7 are reserved and
/// have no part in the result.
pub open spec fn spec_weather_single(b: Seq<u8>) -> IWWeatherData
    recommends
        b.len() >= 28,
{
    IWWeatherData {
        timestamp: spec_timestamp_at(b, 0),
        air_temperature: spec_fp2_at(b, 8),
        air_relative_humidity: spec_fp2_at(b, 10),
        solar_radiation: spec_fp2_at(b, 12),
        soil_water_content: spec_fp2_at(b, 14),
        soil_temperature: spec_fp2_at(b, 16),
        wind_speed: spec_fp2_at(b, 18),
        wind_max: spec_fp2_at(b, 20),
        wind_direction: spec_fp2_at(b, 22),
        precipitation: spec_fp2_at(b, 24),
        air_pressure: spec_fp2_at(b, 26),
    }
}

/// The `i`-th block of 28 bytes of `b`.
pub open spec fn spec_chunk(b: Seq<u8>, i: int) -> Seq<u8>
    recommends
        0 <= i,
        28 * i + 28 <= b.len(),
{
    b.subrange(28 * i, 28 * i + 28)
}

/// The samples that the whole blocks of 28 bytes of `b` hold, in the order of the bytes.
pub open spec fn spec_weather_samples(b: Seq<u8>) -> Seq<IWWeatherData> {
    Seq::new((b.len() / 28) as nat, |i: int| spec_weather_single(spec_chunk(b, i)))
}

/// A payload of weather samples decodes when it is made of whole samples.
pub open spec fn spec_parse_weather_data(b: Seq<u8>) -> Result<StationDataView, IWError> {
    if b.len() % 28 == 0 {
        Ok(StationDataView::MultipleData(spec_weather_samples(b)))
    } else {
        Err(IWError::IO(IoFailure::UnexpectedEof))
    }
}

/// The payload length that a frame prefix declares: the second byte counts 256s, the
/// third byte counts units.
pub open spec fn spec_data_length(b: Seq<u8>) -> int
    recommends
        b.len() >= 3,
{
    b[2] + 256 * b[1]
}

/// The verdict on a frame: the declared payload length, or the first of the three
/// checks that fails.
pub open spec fn spec_validate(b: Seq<u8>) -> Result<usize, IWError> {
    if b.len() < 14 + 3 {
        Err(IWError::DataTooShort(b.len() as usize))
    } else if spec_data_length(b) != b.len() - 3 {
        Err(IWError::DataLengthMismatch(spec_data_length(b) as usize))
    } else if b[0] != 2 {
        Err(IWError::InvalidDataHeader)
    } else {
        Ok(spec_data_length(b) as usize)
    }
}

/// What a payload decodes to. Its length alone selects the record shape.
pub open spec fn spec_parse_payload(p: Seq<u8>) -> Result<StationDataView, IWError> {
    if p.len() == 14 {
        Ok(StationDataView::SingleData(spec_logger_status1(p)))
    } else if p.len() == 18 {
        Ok(StationDataView::SingleData(spec_logger_status2(p)))
    } else {
        spec_parse_weather_data(p)
    }
}

/// What a frame decodes to: the verdict of the validator, then the payload.
pub open spec fn spec_parse_binary_data(b: Seq<u8>) -> Result<StationDataView, IWError> {
    match spec_validate(b) {
        Err(e) => Err(e),
        Ok(_) => spec_parse_payload(b.subrange(3, b.len() as int)),
    }
}

/// The view of a decoding result: the records by their view, the error as it is.
pub open spec fn result_view(r: Result<IWStationData, IWError>) -> Result<
    StationDataView,
    IWError,
> {
    match r {
        Ok(data) => Ok(data@),
        Err(e) => Err(e),
    }
}

/// Reads the FP2 field at `offset`.
pub(crate) fn read_fp2(buffer: &[u8], offset: usize) -> (r: Fp2)
    requires
        offset + 2 <= buffer.len(),
    ensures
        r == spec_fp2_at(buffer@, offset as int),
        r.wf(),
{
    decode_fp2(read_u16_be(slice_subrange(buffer, offset, offset + 2)))
}

/// Reads the second count at `offset` and decodes it.
pub(crate) fn read_timestamp(buffer: &[u8], offset: usize) -> (r: Timestamp)
    requires
        offset + 4 <= buffer.len(),
    ensures
        r == spec_timestamp_at(buffer@, offset as int),
{
    u32_to_timestamp(read_u32_le(slice_subrange(buffer, offset, offset + 4)))
}

/// Decodes a short logger status record from the first 14 bytes of `buffer`. Further
/// bytes are not looked at; a shorter buffer is a short read.
pub fn parse_logger_status1(buffer: &[u8]) -> (r: Result<IWStationData, IWError>)
    ensures
        buffer@.len() >= 14 ==> result_view(r) == Ok::<StationDataView, IWError>(
            StationDataView::SingleData(spec_logger_status1(buffer@)),
        ),
        buffer@.len() < 14 ==> r == Err::<IWStationData, IWError>(
            IWError::IO(IoFailure::UnexpectedEof),
        ),
{
    if buffer.len() < LOGGER_STATUS1_LENGTH {
        return Err(IWError::IO(IoFailure::UnexpectedEof));
    }
    let result = IWLoggerStatus {
        timestamp: read_timestamp(buffer, 0),
        solar_battery: read_fp2(buffer, 8),
        lithium_battery: read_fp2(buffer, 10),
        wind_diag: read_fp2(buffer, 12),
        cf_card: 0,
    };
    Ok(IWStationData::SingleData(result))
}

/// Decodes an extended logger status record from the first 18 bytes of `buffer`.
/// Further bytes are not looked at; a shorter buffer is a short read.
pub fn parse_logger_status2(buffer: &[u8]) -> (r: Result<IWStationData, IWError>)
    ensures
        buffer@.len() >= 18 ==> result_view(r) == Ok::<StationDataView, IWError>(
            StationDataView::SingleData(spec_logger_status2(buffer@)),
        ),
        buffer@.len() < 18 ==> r == Err::<IWStationData, IWError>(
            IWError::IO(IoFailure::UnexpectedEof),
        ),
{
    if buffer.len() < LOGGER_STATUS2_LENGTH {
        return Err(IWError::IO(IoFailure::UnexpectedEof));
    }
    let result = IWLoggerStatus {
        timestamp: read_timestamp(buffer, 0),
        solar_battery: read_fp2(buffer, 8),
        lithium_battery: read_fp2(buffer, 10),
        wind_diag: read_fp2(buffer, 12),
        cf_card: read_u32_be(slice_subrange(buffer, 14, 18)),
    };
    Ok(IWStationData::SingleData(result))
}

/// Decodes one weather sample from the first 28 bytes of `buffer`. Further bytes are
/// not looked at; a shorter buffer is a short read.
pub fn parse_weather_data_single(buffer: &[u8]) -> (r: Result<IWWeatherData, IWError>)
    ensures
        buffer@.len() >= 28 ==> r == Ok::<IWWeatherData, IWError>(spec_weather_single(buffer@)),
        buffer@.len() < 28 ==> r == Err::<IWWeatherData, IWError>(
            IWError::IO(IoFailure::UnexpectedEof),
        ),
{
    if buffer.len() < WEATHER_DATA_LENGTH {
        return Err(IWError::IO(IoFailure::UnexpectedEof));
    }
    let result = IWWeatherData {
        timestamp: read_timestamp(buffer, 0),
        air_temperature: read_fp2(buffer, 8),
        air_relative_humidity: read_fp2(buffer, 10),
        solar_radiation: read_fp2(buffer, 12),
        soil_water_content: read_fp2(buffer, 14),
        soil_temperature: read_fp2(buffer, 16),
        wind_speed: read_fp2(buffer, 18),
        wind_max: read_fp2(buffer, 20),
        wind_direction: read_fp2(buffer, 22),
        precipitation: read_fp2(buffer, 24),
        air_pressure: read_fp2(buffer, 26),
    };
    Ok(result)
}

/// Decodes a payload of weather samples, block by block. A last block of fewer than
/// 28 bytes fails the whole payload; an empty payload holds no sample.
pub fn parse_weather_data(buffer: &[u8]) -> (r: Result<IWStationData, IWError>)
    ensures
        result_view(r) == spec_parse_weather_data(buffer@),
{
    let mut result: Vec<IWWeatherData> = Vec::new();
    let len = buffer.len();
    let mut offset: usize = 0;
    while offset < len
        invariant
            len == buffer@.len(),
            offset <= len,
            offset == 28 * result@.len(),
            forall|k: int|
                0 <= k < result@.len() ==> result@[k] == spec_weather_single(
                    spec_chunk(buffer@, k),
                ),
        decreases len - offset,
    {
        let end = if len - offset < WEATHER_DATA_LENGTH {
            len
        } else {
            offset + WEATHER_DATA_LENGTH
        };
        let chunk = slice_subrange(buffer, offset, end);
        match parse_weather_data_single(chunk) {
            Ok(sample) => {
                assert(chunk@ == spec_chunk(buffer@, result@.len() as int));
                result.push(sample);
            },
            Err(e) => {
                return Err(e);
            },
        }
        offset = end;
    }
    assert(result@ =~= spec_weather_samples(buffer@));
    Ok(IWStationData::MultipleData(result))
}

/// The payload length that the frame prefix declares: `buffer[2] + 256 * buffer[1]`.
pub fn get_data_length(buffer: &[u8]) -> (r: usize)
    requires
        buffer@.len() >= 3,
    ensures
        r == spec_data_length(buffer@),
        r == buffer@[2] + 256 * buffer@[1],
{
    let high = buffer[1] as u16;
    let low = buffer[2] as u16;
    (low + (256 * high)) as usize
}

/// Checks the frame prefix against the buffer and returns the declared payload length.
/// The payload is `buffer[3..]`.
///
/// The checks are made in this order: a buffer of fewer than 17 bytes is too short; a
/// declared length that is not the buffer's length less the prefix is a mismatch; a
/// first byte other than the marker is an invalid header.
pub fn validate(buffer: &[u8]) -> (r: Result<usize, IWError>)
    ensures
        r == spec_validate(buffer@),
        buffer@.len() < 17 ==> r == Err::<usize, IWError>(
            IWError::DataTooShort(buffer@.len() as usize),
        ),
        buffer@.len() >= 17 && spec_data_length(buffer@) != buffer@.len() - 3 ==> r == Err::<
            usize,
            IWError,
        >(IWError::DataLengthMismatch(spec_data_length(buffer@) as usize)),
        buffer@.len() >= 17 && spec_data_length(buffer@) == buffer@.len() - 3 && buffer@[0] != 2
            ==> r == Err::<usize, IWError>(IWError::InvalidDataHeader),
        r is Ok <==> buffer@.len() >= 17 && spec_data_length(buffer@) == buffer@.len() - 3
            && buffer@[0] == 2,
        r is Ok ==> r->Ok_0 == buffer@.len() - 3,
{
    let buffer_len = buffer.len();
    if buffer_len < LOGGER_STATUS1_LENGTH + HEADER_LENGTH2 {
        return Err(IWError::DataTooShort(buffer_len));
    }
    let data_len = get_data_length(buffer);
    if data_len != buffer_len - HEADER_LENGTH2 {
        return Err(IWError::DataLengthMismatch(data_len));
    }
    if buffer[0] != FRAME_MARKER {
        return Err(IWError::InvalidDataHeader);
    }
    Ok(data_len)
}

/// Decodes a payload. Its length selects the shape: 14 bytes are a short logger status,
/// 18 bytes an extended one, anything else is read as weather samples.
pub fn parse_payload(payload: &[u8]) -> (r: Result<IWStationData, IWError>)
    ensures
        result_view(r) == spec_parse_payload(payload@),
{
    let data_len = payload.len();
    if data_len == LOGGER_STATUS1_LENGTH {
        parse_logger_status1(payload)
    } else if data_len == LOGGER_STATUS2_LENGTH {
        parse_logger_status2(payload)
    } else {
        parse_weather_data(payload)
    }
}

/// Decodes a frame: validates the prefix, then decodes the payload behind it.
pub fn parse_binary_data(buffer: &[u8]) -> (r: Result<IWStationData, IWError>)
    ensures
        result_view(r) == spec_parse_binary_data(buffer@),
{
    match validate(buffer) {
        Err(e) => Err(e),
        Ok(_) => parse_payload(slice_subrange(buffer, HEADER_LENGTH2, buffer.len())),
    }
}

/// The name of the station that sends to `port`.
pub open spec fn spec_port_to_station(port: u16) -> Seq<char> {
    if port == 2100 {
        "Nahuelbuta"@
    } else if port == 2101 {
        "Santa_Gracia"@
    } else if port == 2102 {
        "Pan_de_Azucar"@
    } else if port == 2103 {
        "La_Campana"@
    } else if port == 2104 {
        "Wanne_Tuebingen"@
    } else if port == 2001 {
        "test1"@
    } else if port == 2200 {
        "test2"@
    } else {
        "unknown"@
    }
}

/// Maps the local port of a connection to the name of the station that sends to it.
pub fn port_to_station(port: u16) -> (name: String)
    ensures
        name@ == spec_port_to_station(port),
{
    match port {
        2100 => String::from_str("Nahuelbuta"),
        2101 => String::from_str("Santa_Gracia"),
        2102 => String::from_str("Pan_de_Azucar"),
        2103 => String::from_str("La_Campana"),
        2104 => String::from_str("Wanne_Tuebingen"),
        2001 => String::from_str("test1"),
        2200 => String::from_str("test2"),
        _ => String::from_str("unknown"),
    }
}

/// The name of the file that keeps the raw bytes of a message.
pub open spec fn spec_binary_filename(station_name: Seq<char>, date: Seq<char>) -> Seq<char> {
    "old/binary/"@ + station_name + "_"@ + date + ".dat"@
}

/// Names the file that keeps the raw bytes of what the station sent on the day
/// `date_today`.
pub fn binary_filename(station_name: &str, date_today: &str) -> (name: String)
    ensures
        name@ == spec_binary_filename(station_name@, date_today@),
{
    let mut name = String::from_str("old/binary/");
    name.append(station_name);
    name.append("_");
    name.append(date_today);
    name.append(".dat");
    name
}

/// The frame of a message: what follows the preamble.
pub open spec fn spec_frame(message: Seq<u8>) -> Seq<u8>
    recommends
        message.len() >= 48,
{
    message.subrange(48, message.len() as int)
}

/// The view of an outcome: the records by their view, the error as it is.
pub open spec fn outcome_view(outcome: ConnectionOutcome) -> Result<StationDataView, IWError> {
    match outcome {
        ConnectionOutcome::Decoded(data) => Ok(data@),
        ConnectionOutcome::Rejected(e) => Err(e),
    }
}

/// Handles everything that one connection delivered, from the first byte to the close.
///
/// A message shorter than the preamble fails the connection with `DataTooShort`.
/// Otherwise the preamble is stripped and the frame behind it decoded; a frame that
/// does not decode is an outcome of its own, not a failure of the connection.
pub fn process_connection_data(tcp_buffer: &[u8]) -> (r: Result<ConnectionOutcome, IWError>)
    ensures
        tcp_buffer@.len() < 48 ==> r == Err::<ConnectionOutcome, IWError>(
            IWError::DataTooShort(tcp_buffer@.len() as usize),
        ),
        tcp_buffer@.len() >= 48 ==> r is Ok && outcome_view(r->Ok_0) == spec_parse_binary_data(
            spec_frame(tcp_buffer@),
        ),
{
    let len = tcp_buffer.len();
    if len < HEADER_LENGTH1 {
        return Err(IWError::DataTooShort(len));
    }
    let after_header = slice_subrange(tcp_buffer, HEADER_LENGTH1, len);
    match parse_binary_data(after_header) {
        Ok(data) => Ok(ConnectionOutcome::Decoded(data)),
        Err(e) => Ok(ConnectionOutcome::Rejected(e)),
    }
}

/// The frame that carries `payload`: marker, length with the high byte first, payload.
pub open spec fn spec_make_frame(payload: Seq<u8>) -> Seq<u8>
    recommends
        payload.len() <= 0xFFFF,
{
    seq![2u8, (payload.len() / 256) as u8, (payload.len() % 256) as u8] + payload
}

/// The length that a frame prefix declares is its third byte plus 256 times its
/// second, whatever the marker and the payload are.
pub proof fn lemma_data_length(marker: u8, high: u8, low: u8, payload: Seq<u8>)
    ensures
        spec_data_length(seq![marker, high, low] + payload) == low + 256 * high,
{
}

/// A message made of any preamble and a well-made frame decodes to what the payload
/// of the frame decodes to. With a payload of 14 bytes that is exactly one short
/// logger status record.
pub proof fn lemma_framed_payload_decodes(preamble: Seq<u8>, payload: Seq<u8>)
    requires
        preamble.len() == 48,
        14 <= payload.len() <= 0xFFFF,
    ensures
        spec_validate(spec_make_frame(payload)) == Ok::<usize, IWError>(payload.len() as usize),
        spec_parse_binary_data(spec_frame(preamble + spec_make_frame(payload)))
            == spec_parse_payload(payload),
        payload.len() == 14 ==> spec_parse_binary_data(
            spec_frame(preamble + spec_make_frame(payload)),
        ) == Ok::<StationDataView, IWError>(
            StationDataView::SingleData(spec_logger_status1(payload)),
        ),
{
    let frame = spec_make_frame(payload);
    let message = preamble + frame;
    assert(spec_frame(message) =~= frame);
    assert(frame.subrange(3, frame.len() as int) =~= payload);
    assert(frame[1] == (payload.len() / 256) as u8);
    assert(frame[2] == (payload.len() % 256) as u8);
}

/// A payload of whole samples holds `len / 28` of them, and the `i`-th sample is
/// read from the `i`-th block of 28 bytes and from nothing else.
pub proof fn lemma_weather_samples_in_order(payload: Seq<u8>, i: int)
    requires
        payload.len() % 28 == 0,
        0 <= i < payload.len() / 28,
    ensures
        spec_parse_weather_data(payload) == Ok::<StationDataView, IWError>(
            StationDataView::MultipleData(spec_weather_samples(payload)),
        ),
        spec_weather_samples(payload).len() == payload.len() / 28,
        spec_weather_samples(payload)[i] == spec_weather_single(
            payload.subrange(28 * i, 28 * i + 28),
        ),
{
}

/// The samples of two payloads laid end to end are the samples of the first followed
/// by the samples of the second, where the first is made of whole samples.
pub proof fn lemma_weather_samples_concat(first: Seq<u8>, second: Seq<u8>)
    requires
        first.len() % 28 == 0,
    ensures
        spec_weather_samples(first + second) == spec_weather_samples(first) + spec_weather_samples(
            second,
        ),
{
    let whole = first + second;
    let n = first.len() as int / 28;
    let m = second.len() as int / 28;
    assert(whole.len() / 28 == n + m);
    assert forall|i: int| 0 <= i < n + m implies spec_chunk(whole, i) == if i < n {
        spec_chunk(first, i)
    } else {
        spec_chunk(second, i - n)
    } by {
        if i < n {
            assert(spec_chunk(whole, i) =~= spec_chunk(first, i));
        } else {
            assert(spec_chunk(whole, i) =~= spec_chunk(second, i - n));
        }
    }
    assert(spec_weather_samples(whole) =~= spec_weather_samples(first) + spec_weather_samples(
        second,
    ));
}

/// Decoding depends on the bytes alone: whatever two runs of the decoder return for
/// buffers of the same content, the two results have the same view.
pub proof fn lemma_decoding_is_repeatable(
    first: Result<IWStationData, IWError>,
    second: Result<IWStationData, IWError>,
    buffer1: Seq<u8>,
    buffer2: Seq<u8>,
)
    requires
        buffer1 == buffer2,
        result_view(first) == spec_parse_binary_data(buffer1),
        result_view(second) == spec_parse_binary_data(buffer2),
    ensures
        result_view(first) == result_view(second),
        first is Err ==> first == second,
        first matches Ok(IWStationData::SingleData(status)) ==> second == first,
        first matches Ok(IWStationData::MultipleData(samples)) ==> (second matches Ok(
            IWStationData::MultipleData(others),
        ) && others@ == samples@),
{
}

} // verus!
