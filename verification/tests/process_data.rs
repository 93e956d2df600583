use chrono::{DateTime, NaiveDateTime};
use iridium_weatherstation::error::{IWError, IoFailure};
use iridium_weatherstation::fp2::{decode_fp2, Fp2};
use iridium_weatherstation::process_data::{
    binary_filename, get_data_length, parse_binary_data, parse_logger_status1,
    parse_logger_status2, parse_payload, parse_weather_data, parse_weather_data_single,
    port_to_station, process_connection_data, validate, ConnectionOutcome, IWLoggerStatus,
    IWStationData, IWWeatherData,
};
use iridium_weatherstation::timestamp::{u32_to_timestamp, Timestamp, EPOCH_1990};

/// The binary float that a decoded number stands for.
fn u16_to_f64(data: u16) -> f64 {
    float_of(decode_fp2(data))
}

fn float_of(value: Fp2) -> f64 {
    match value {
        Fp2::PosInfinity => f64::INFINITY,
        Fp2::NegInfinity => f64::NEG_INFINITY,
        Fp2::NotANumber => f64::NAN,
        Fp2::Finite { negative, magnitude, scale } => {
            let sign = if negative { -1.0 } else { 1.0 };
            let mantissa = (magnitude as f64) * sign;
            match scale {
                1 => mantissa / 10.0,
                2 => mantissa / 100.0,
                3 => mantissa / 1000.0,
                _ => mantissa,
            }
        }
    }
}

fn date_time(text: &str) -> NaiveDateTime {
    NaiveDateTime::parse_from_str(text, "%Y-%m-%d %H:%M:%S").unwrap()
}

fn naive(timestamp: Timestamp) -> NaiveDateTime {
    DateTime::from_timestamp(timestamp.seconds, 0).unwrap().naive_utc()
}

fn status_values(status: &IWLoggerStatus) -> (NaiveDateTime, f64, f64, f64, u32) {
    (
        naive(status.timestamp),
        float_of(status.solar_battery),
        float_of(status.lithium_battery),
        float_of(status.wind_diag),
        status.cf_card,
    )
}

fn weather_values(data: &IWWeatherData) -> (NaiveDateTime, [f64; 10]) {
    (
        naive(data.timestamp),
        [
            float_of(data.air_temperature),
            float_of(data.air_relative_humidity),
            float_of(data.solar_radiation),
            float_of(data.soil_water_content),
            float_of(data.soil_temperature),
            float_of(data.wind_speed),
            float_of(data.wind_max),
            float_of(data.wind_direction),
            float_of(data.precipitation),
            float_of(data.air_pressure),
        ],
    )
}

fn single(data: IWStationData) -> IWLoggerStatus {
    match data {
        IWStationData::SingleData(status) => status,
        IWStationData::MultipleData(_) => panic!("expected a logger status, got: '{:?}'", data),
    }
}

fn multiple(data: IWStationData) -> Vec<IWWeatherData> {
    match data {
        IWStationData::MultipleData(samples) => samples,
        IWStationData::SingleData(_) => panic!("expected weather data, got: '{:?}'", data),
    }
}

const SBS_HEADER: [u8; 48] = [0; 48];

#[test]
fn process_data_test_u32_to_timestamp() {
    let result = u32_to_timestamp(843091200);
    let datetime = date_time("2016-09-19 00:00:00");
    assert_eq!(naive(result), datetime);
    assert_eq!(result, Timestamp::from_unix_seconds(datetime.and_utc().timestamp()));
}

#[test]
fn process_data_test_u16_to_f64_1() {
    assert_eq!(u16_to_f64(17660), 12.76);
}

#[test]
fn process_data_test_u16_to_f64_2() {
    assert_eq!(u16_to_f64(17662), 12.78);
}

#[test]
fn process_data_test_u16_to_f64_3() {
    assert_eq!(u16_to_f64(17664), 12.80);
}

#[test]
fn process_data_test_u16_to_f64_4() {
    assert_eq!(u16_to_f64(24576), 0.0);
}

#[test]
fn process_data_test_u16_to_f64_5() {
    assert_eq!(u16_to_f64(962), 962.0);
}

#[test]
fn process_data_test_u16_to_f64_6() {
    assert_eq!(u16_to_f64(25576), 1.0);
}

#[test]
fn test_get_data_length1() {
    assert_eq!(get_data_length(&[0, 0, 0]), 0);
}

#[test]
fn test_get_data_length2() {
    assert_eq!(get_data_length(&[0, 0, 27]), 27);
}

#[test]
fn test_get_data_length3() {
    assert_eq!(get_data_length(&[0, 1, 0]), 256);
}

#[test]
fn test_get_data_length4() {
    assert_eq!(get_data_length(&[0, 1, 4]), 260);
}

#[test]
fn test_get_data_length_all_prefixes() {
    for high in 0..=255u8 {
        for low in 0..=255u8 {
            assert_eq!(get_data_length(&[2, high, low, 9, 9]), low as usize + 256 * high as usize);
        }
    }
}

#[test]
fn test_parse_logger_status1() {
    let result =
        parse_logger_status1(&[0, 141, 64, 50, 0, 0, 0, 0, 68, 252, 99, 240, 99, 220]).unwrap();
    let timestamp = date_time("2016-09-19 00:00:00");
    let status = single(result.clone());
    assert_eq!(status_values(&status), (timestamp, 12.76, 1.008, 0.988, 0));

    let expected = IWLoggerStatus {
        timestamp: Timestamp::from_unix_seconds(timestamp.and_utc().timestamp()),
        solar_battery: Fp2::Finite { negative: false, magnitude: 1276, scale: 2 },
        lithium_battery: Fp2::Finite { negative: false, magnitude: 1008, scale: 3 },
        wind_diag: Fp2::Finite { negative: false, magnitude: 988, scale: 3 },
        cf_card: 0,
    };
    assert_eq!(result, IWStationData::SingleData(expected));
}

#[test]
fn test_parse_logger_status2() {
    let result = parse_logger_status2(&[
        0, 141, 64, 50, 0, 0, 0, 0, 68, 252, 109, 31, 96, 0, 255, 255, 255, 127,
    ])
    .unwrap();
    let timestamp = date_time("2016-09-19 00:00:00");
    let status = single(result);
    assert_eq!(status_values(&status), (timestamp, 12.76, 3.359, 0.0, 4294967167));
}

#[test]
fn test_parse_logger_status1_error() {
    let result = parse_logger_status1(&[0]);

    match result {
        Err(IWError::IO(_)) => {
            // OK
        }
        _ => {
            panic!("Expected IWError, got: '{:?}'", result);
        }
    }
}

#[test]
fn test_parse_logger_status2_error() {
    let result = parse_logger_status2(&[0]);

    match result {
        Err(IWError::IO(_)) => {
            // OK
        }
        _ => {
            panic!("Expected IWError, got: '{:?}'", result);
        }
    }
}

#[test]
fn test_parse_logger_status_lengths() {
    let bytes = [0, 141, 64, 50, 1, 2, 3, 4, 68, 252, 109, 31, 96, 0, 255, 255, 255, 127, 7, 7];
    assert_eq!(parse_logger_status1(&bytes[..13]), Err(IWError::IO(IoFailure::UnexpectedEof)));
    assert_eq!(parse_logger_status2(&bytes[..17]), Err(IWError::IO(IoFailure::UnexpectedEof)));
    let short = single(parse_logger_status1(&bytes).unwrap());
    let long = single(parse_logger_status2(&bytes).unwrap());
    assert_eq!(short.cf_card, 0);
    assert_eq!(long.cf_card, 0xFFFF_FF7F);
    assert_eq!(short.timestamp, long.timestamp);
    assert_eq!(short.solar_battery, long.solar_battery);
}

#[test]
fn test_parse_weather_data_single() {
    let result = parse_weather_data_single(&[
        0, 141, 64, 50, 0, 0, 0, 0, 69, 222, 35, 229, 92, 249, 96, 77, 70, 100, 97, 103, 98, 238,
        43, 190, 99, 232, 3, 194,
    ])
    .unwrap();
    let timestamp = date_time("2016-09-19 00:00:00");
    assert_eq!(
        weather_values(&result),
        (timestamp, [15.02, 99.7, 74.17, 0.077, 16.36, 0.359, 0.75, 300.6, 1.0, 962.0])
    );
}

#[test]
fn test_parse_weather_data_single_error() {
    let result = parse_weather_data_single(&[0]);

    match result {
        Err(IWError::IO(_)) => {
            // OK
        }
        _ => {
            panic!("Expected IWError, got: '{:?}'", result);
        }
    }
}

#[test]
fn test_parse_weather_data() {
    let result = parse_weather_data(&[
        208, 252, 170, 60, 0, 0, 0, 0, 70, 121, 93, 234, 3, 52, 96, 48, 72, 12, 119, 158, 67, 59,
        42, 25, 96, 0, 3, 210, 224, 10, 171, 60, 0, 0, 0, 0, 70, 146, 92, 255, 3, 108, 96, 48, 72,
        12, 120, 106, 67, 66, 42, 30, 96, 0, 3, 210,
    ])
    .unwrap();

    let timestamp1 = date_time("2022-04-03 13:00:00");
    let timestamp2 = date_time("2022-04-03 14:00:00");

    let samples = multiple(result);
    assert_eq!(samples.len(), 2);
    assert_eq!(
        weather_values(&samples[0]),
        (timestamp1, [16.57, 76.58, 820.0, 0.048, 20.6, 6.046, 8.27, 258.5, 0.0, 978.0])
    );
    assert_eq!(
        weather_values(&samples[1]),
        (timestamp2, [16.82, 74.23, 876.0, 0.048, 20.6, 6.25, 8.34, 259.0, 0.0, 978.0])
    );
}

#[test]
fn test_parse_weather_data_error() {
    let result = parse_weather_data(&[0]);

    match result {
        Err(IWError::IO(_)) => {
            // OK
        }
        _ => {
            panic!("Expected IWError, got: '{:?}'", result);
        }
    }
}

#[test]
fn test_parse_weather_data_empty_and_cut() {
    assert_eq!(parse_weather_data(&[]), Ok(IWStationData::MultipleData(vec![])));
    let bytes = [7u8; 84];
    assert_eq!(multiple(parse_weather_data(&bytes).unwrap()).len(), 3);
    assert_eq!(parse_weather_data(&bytes[..83]), Err(IWError::IO(IoFailure::UnexpectedEof)));
    assert_eq!(parse_weather_data(&bytes[..57]), Err(IWError::IO(IoFailure::UnexpectedEof)));
    assert_eq!(multiple(parse_weather_data(&bytes[..56]).unwrap()).len(), 2);
}

#[test]
fn process_data_test_parse_binary_data1() {
    let result = parse_binary_data(&[
        2, 0, 14, 128, 151, 171, 60, 0, 0, 0, 0, 68, 209, 109, 116, 96, 0,
    ])
    .unwrap();

    let timestamp1 = date_time("2022-04-04 00:00:00");
    assert_eq!(status_values(&single(result)), (timestamp1, 12.33, 3.444, 0.0, 0));
}

#[test]
fn process_data_test_parse_binary_data2() {
    let result = parse_binary_data(&[
        2, 0, 18, 0, 233, 172, 60, 0, 0, 0, 0, 68, 223, 109, 41, 96, 0, 255, 255, 255, 127,
    ])
    .unwrap();

    let timestamp1 = date_time("2022-04-05 00:00:00");
    assert_eq!(status_values(&single(result)), (timestamp1, 12.47, 3.369, 0.0, 4294967167));
}

#[test]
fn process_data_test_parse_binary_data3() {
    let result = parse_binary_data(&[
        2, 0, 28, 208, 252, 170, 60, 0, 0, 0, 0, 70, 121, 93, 234, 3, 52, 96, 48, 72, 12, 119, 158,
        67, 59, 42, 25, 96, 0, 3, 210,
    ])
    .unwrap();

    let timestamp1 = date_time("2022-04-03 13:00:00");
    let samples = multiple(result);
    assert_eq!(samples.len(), 1);
    assert_eq!(
        weather_values(&samples[0]),
        (timestamp1, [16.57, 76.58, 820.0, 0.048, 20.6, 6.046, 8.27, 258.5, 0.0, 978.0])
    );
}

#[test]
fn test_parse_binary_data_error1() {
    let result = parse_binary_data(&[0]);

    match result {
        Err(IWError::DataTooShort(1)) => {
            // OK
        }
        _ => {
            panic!("Expected IWError, got: '{:?}'", result);
        }
    }
}

#[test]
fn test_parse_binary_data_error2() {
    let result = parse_binary_data(&[0, 0, 0, 0, 0, 0, 0, 0, 0, 0, 0, 0, 0, 0, 0, 0, 0]);

    match result {
        Err(IWError::DataLengthMismatch(0)) => {
            // OK
        }
        _ => {
            panic!("Expected IWError, got: '{:?}'", result);
        }
    }
}

#[test]
fn test_parse_binary_data_error3() {
    let result = parse_binary_data(&[0, 0, 14, 0, 0, 0, 0, 0, 0, 0, 0, 0, 0, 0, 0, 0, 0]);

    match result {
        Err(IWError::InvalidDataHeader) => {
            // OK
        }
        _ => {
            panic!("Expected IWError, got: '{:?}'", result);
        }
    }
}

#[test]
fn test_port_to_station() {
    assert_eq!(port_to_station(2100), "Nahuelbuta");
    assert_eq!(port_to_station(2101), "Santa_Gracia");
    assert_eq!(port_to_station(2102), "Pan_de_Azucar");
    assert_eq!(port_to_station(2103), "La_Campana");
    assert_eq!(port_to_station(2104), "Wanne_Tuebingen");
    assert_eq!(port_to_station(2105), "unknown");
}

#[test]
fn test_port_to_station_test_ports() {
    assert_eq!(port_to_station(2001), "test1");
    assert_eq!(port_to_station(2200), "test2");
    assert_eq!(port_to_station(0), "unknown");
    assert_eq!(port_to_station(65535), "unknown");
}

#[test]
fn test_fp2_reserved_patterns() {
    assert_eq!(decode_fp2(0x1FFF), Fp2::PosInfinity);
    assert_eq!(decode_fp2(0x9FFF), Fp2::NegInfinity);
    assert_eq!(decode_fp2(0x9FFE), Fp2::NotANumber);
    assert_eq!(u16_to_f64(0x1FFF), f64::INFINITY);
    assert_eq!(u16_to_f64(0x9FFF), f64::NEG_INFINITY);
    assert!(u16_to_f64(0x9FFE).is_nan());
    assert!(!decode_fp2(0x9FFE).is_finite());
    assert_eq!(decode_fp2(0x1FFF).thousandths(), None);
    // The same magnitudes with another scale are ordinary numbers.
    assert_eq!(decode_fp2(0x3FFF), Fp2::Finite { negative: false, magnitude: 8191, scale: 1 });
    assert_eq!(decode_fp2(0x1FFE), Fp2::Finite { negative: false, magnitude: 8190, scale: 0 });
    assert_eq!(decode_fp2(0x9FFD), Fp2::Finite { negative: true, magnitude: 8189, scale: 0 });
}

#[test]
fn test_fp2_fields() {
    assert_eq!(decode_fp2(17660), Fp2::Finite { negative: false, magnitude: 1276, scale: 2 });
    assert_eq!(decode_fp2(17660).thousandths(), Some(12760));
    assert_eq!(decode_fp2(962).thousandths(), Some(962000));
    assert_eq!(decode_fp2(25576).thousandths(), Some(1000));
    assert_eq!(
        decode_fp2(0x8000 | 0x2000 | 255),
        Fp2::Finite { negative: true, magnitude: 255, scale: 1 }
    );
    assert_eq!(decode_fp2(0x8000 | 0x2000 | 255).thousandths(), Some(-25500));
    assert_eq!(u16_to_f64(0x8000 | 0x2000 | 255), -25.5);
    assert_eq!(u16_to_f64(0xE001), -0.001);
    assert_eq!(u16_to_f64(0x0000), 0.0);
    assert!(decode_fp2(0).is_finite());
}

#[test]
fn test_fp2_every_pattern() {
    for raw in 0..=u16::MAX {
        let value = decode_fp2(raw);
        let float = u16_to_f64(raw);
        match value {
            Fp2::PosInfinity => assert_eq!(raw, 0x1FFF),
            Fp2::NegInfinity => assert_eq!(raw, 0x9FFF),
            Fp2::NotANumber => assert_eq!(raw, 0x9FFE),
            Fp2::Finite { negative, magnitude, scale } => {
                assert_eq!(negative, raw >> 15 == 1);
                assert_eq!(scale as u16, (raw >> 13) & 3);
                assert_eq!(magnitude, raw & 0x1FFF);
                assert!(float.is_finite());
                let thousandths = value.thousandths().unwrap();
                assert!((float * 1000.0 - thousandths as f64).abs() < 1e-6);
            }
        }
        assert_eq!(decode_fp2(raw), value);
    }
}

#[test]
fn test_timestamp_epoch() {
    assert_eq!(EPOCH_1990, 631_152_000);
    assert_eq!(naive(u32_to_timestamp(0)), date_time("1990-01-01 00:00:00"));
    assert_eq!(naive(u32_to_timestamp(1)), date_time("1990-01-01 00:00:01"));
    assert_eq!(naive(u32_to_timestamp(86400)), date_time("1990-01-02 00:00:00"));
    assert_eq!(naive(u32_to_timestamp(u32::MAX)), date_time("2126-02-07 06:28:15"));
    assert_eq!(u32_to_timestamp(u32::MAX).unix_seconds(), 631_152_000 + 4_294_967_295);
}

#[test]
fn test_validate() {
    let frame = [2, 0, 14, 128, 151, 171, 60, 0, 0, 0, 0, 68, 209, 109, 116, 96, 0];
    assert_eq!(validate(&frame), Ok(14));
    assert_eq!(validate(&frame[..16]), Err(IWError::DataTooShort(16)));
    assert_eq!(validate(&[]), Err(IWError::DataTooShort(0)));
    // Too short comes before the other two checks.
    assert_eq!(validate(&[9, 9, 9]), Err(IWError::DataTooShort(3)));

    let mut wrong_length = frame;
    wrong_length[2] = 15;
    assert_eq!(validate(&wrong_length), Err(IWError::DataLengthMismatch(15)));
    // The second byte is the high byte of the length.
    wrong_length[1] = 1;
    wrong_length[2] = 14;
    assert_eq!(validate(&wrong_length), Err(IWError::DataLengthMismatch(270)));
    // A mismatch comes before the marker check.
    wrong_length[0] = 3;
    assert_eq!(validate(&wrong_length), Err(IWError::DataLengthMismatch(270)));

    let mut wrong_marker = frame;
    wrong_marker[0] = 3;
    assert_eq!(validate(&wrong_marker), Err(IWError::InvalidDataHeader));

    let mut long = vec![2u8, 1, 24];
    long.extend_from_slice(&[0u8; 280]);
    assert_eq!(validate(&long), Ok(280));
}

#[test]
fn test_parse_payload_shapes() {
    let bytes = [5u8; 60];
    assert!(matches!(parse_payload(&bytes[..14]), Ok(IWStationData::SingleData(_))));
    assert!(matches!(parse_payload(&bytes[..18]), Ok(IWStationData::SingleData(_))));
    assert_eq!(multiple(parse_payload(&bytes[..28]).unwrap()).len(), 1);
    assert_eq!(multiple(parse_payload(&bytes[..56]).unwrap()).len(), 2);
    assert_eq!(parse_payload(&bytes[..0]), Ok(IWStationData::MultipleData(vec![])));
    for length in [1, 13, 15, 17, 19, 20, 27, 29, 55, 57] {
        assert_eq!(
            parse_payload(&bytes[..length]),
            Err(IWError::IO(IoFailure::UnexpectedEof))
        );
    }
}

#[test]
fn test_parse_binary_data_cut_weather() {
    let mut frame = vec![2u8, 0, 30];
    frame.extend_from_slice(&[1u8; 30]);
    assert_eq!(parse_binary_data(&frame), Err(IWError::IO(IoFailure::UnexpectedEof)));
}

#[test]
fn test_parse_binary_data_many_samples() {
    let mut frame = vec![2u8, 2, 160];
    for i in 0..24u8 {
        frame.extend_from_slice(&[i, 78, 172, 60, 0, 0, 0, 0]);
        for field in 0..10u8 {
            frame.extend_from_slice(&[0x40, i + field]);
        }
    }
    assert_eq!(frame.len(), 3 + 24 * 28);
    let samples = multiple(parse_binary_data(&frame).unwrap());
    assert_eq!(samples.len(), 24);
    for (i, sample) in samples.iter().enumerate() {
        assert_eq!(sample.timestamp.seconds, EPOCH_1990 + 0x3CAC_4E00 + i as i64);
        assert_eq!(
            sample.air_temperature,
            Fp2::Finite { negative: false, magnitude: i as u16, scale: 2 }
        );
        assert_eq!(
            sample.air_pressure,
            Fp2::Finite { negative: false, magnitude: i as u16 + 9, scale: 2 }
        );
    }
}

#[test]
fn test_process_connection_data() {
    let data1 = [0u8];
    assert_eq!(process_connection_data(&data1), Err(IWError::DataTooShort(1)));
    assert_eq!(process_connection_data(&SBS_HEADER[..47]), Err(IWError::DataTooShort(47)));
    assert_eq!(
        process_connection_data(&SBS_HEADER),
        Ok(ConnectionOutcome::Rejected(IWError::DataTooShort(0)))
    );
    assert_eq!(
        process_connection_data(&[&SBS_HEADER[..], &data1[..]].concat()),
        Ok(ConnectionOutcome::Rejected(IWError::DataTooShort(1)))
    );

    let data2 = [0u8; 17];
    assert_eq!(
        process_connection_data(&[&SBS_HEADER[..], &data2[..]].concat()),
        Ok(ConnectionOutcome::Rejected(IWError::DataLengthMismatch(0)))
    );

    let data3 = [0, 0, 14, 0, 0, 0, 0, 0, 0, 0, 0, 0, 0, 0, 0, 0, 0];
    assert_eq!(
        process_connection_data(&[&SBS_HEADER[..], &data3[..]].concat()),
        Ok(ConnectionOutcome::Rejected(IWError::InvalidDataHeader))
    );
}

#[test]
fn test_process_connection_data_round_trip() {
    let preamble: Vec<u8> = (0..48u8).collect();
    let payload = [128, 151, 171, 60, 0, 0, 0, 0, 68, 209, 109, 116, 96, 0];
    let message = [&preamble[..], &[2, 0, 14][..], &payload[..]].concat();

    let outcome = process_connection_data(&message).unwrap();
    match outcome {
        ConnectionOutcome::Decoded(IWStationData::SingleData(status)) => {
            assert_eq!(
                status_values(&status),
                (date_time("2022-04-04 00:00:00"), 12.33, 3.444, 0.0, 0)
            );
            assert_eq!(IWStationData::SingleData(status), parse_logger_status1(&payload).unwrap());
        }
        _ => panic!("expected one logger status, got: '{:?}'", outcome),
    }
}

#[test]
fn test_decoding_twice() {
    let frame = [
        2, 0, 28, 208, 252, 170, 60, 0, 0, 0, 0, 70, 121, 93, 234, 3, 52, 96, 48, 72, 12, 119, 158,
        67, 59, 42, 25, 96, 0, 3, 210,
    ];
    let first = parse_binary_data(&frame);
    let second = parse_binary_data(&frame);
    assert!(first.is_ok());
    assert_eq!(first, second);
    assert_eq!(parse_binary_data(&frame[..30]), parse_binary_data(&frame[..30]));
    assert_eq!(validate(&frame), validate(&frame));
}

#[test]
fn test_binary_filename() {
    assert_eq!(
        binary_filename("Nahuelbuta", "2022_04_05"),
        "old/binary/Nahuelbuta_2022_04_05.dat"
    );
    assert_eq!(binary_filename("", ""), "old/binary/_.dat");
}

#[test]
fn test_error_message() {
    assert_eq!(IWError::DataTooShort(1).message(), "Data too short:  '1'");
    assert_eq!(IWError::DataTooShort(0).message(), "Data too short:  '0'");
    assert_eq!(
        IWError::DataLengthMismatch(270).message(),
        "Data length does not match:  '270'"
    );
    assert_eq!(
        IWError::DataLengthMismatch(usize::MAX).message(),
        format!("Data length does not match:  '{}'", usize::MAX)
    );
    assert_eq!(IWError::InvalidDataHeader.message(), "Invalid data header");
    assert_eq!(
        IWError::IO(IoFailure::UnexpectedEof).message(),
        "IO error: 'failed to fill whole buffer'"
    );
    for n in [9usize, 10, 11, 99, 100, 101, 65535, 1000000] {
        assert_eq!(IWError::DataTooShort(n).message(), format!("Data too short:  '{}'", n));
    }
}

#[test]
fn test_connection_messages() {
    let data4 = [2, 0, 14, 128, 151, 171, 60, 0, 0, 0, 0, 68, 209, 109, 116, 96, 0];
    let outcome = process_connection_data(&[&SBS_HEADER[..], &data4[..]].concat()).unwrap();
    match outcome {
        ConnectionOutcome::Decoded(data) => {
            assert_eq!(
                status_values(&single(data)),
                (date_time("2022-04-04 00:00:00"), 12.33, 3.444, 0.0, 0)
            );
        }
        _ => panic!("expected a logger status, got: '{:?}'", outcome),
    }

    let data5 =
        [2, 0, 18, 0, 233, 172, 60, 0, 0, 0, 0, 68, 223, 109, 41, 96, 0, 255, 255, 255, 127];
    let outcome = process_connection_data(&[&SBS_HEADER[..], &data5[..]].concat()).unwrap();
    match outcome {
        ConnectionOutcome::Decoded(data) => {
            assert_eq!(
                status_values(&single(data)),
                (date_time("2022-04-05 00:00:00"), 12.47, 3.369, 0.0, 4294967167)
            );
        }
        _ => panic!("expected a logger status, got: '{:?}'", outcome),
    }

    let data6: [u8; 675] = [
        2, 2, 160, 80, 78, 172, 60, 0, 0, 0, 0, 72, 226, 77, 25, 59, 230, 96, 59, 72, 202, 103,
        236, 108, 228, 38, 163, 96, 0, 3, 198, 96, 92, 172, 60, 0, 0, 0, 0, 73, 232, 75, 195,
        61, 182, 96, 59, 72, 198, 104, 28, 112, 144, 40, 150, 96, 0, 3, 198, 112, 106, 172, 60,
        0, 0, 0, 0, 74, 154, 72, 225, 61, 206, 96, 59, 72, 205, 105, 63, 114, 182, 39, 208, 96,
        0, 3, 197, 128, 120, 172, 60, 0, 0, 0, 0, 74, 245, 72, 228, 59, 0, 96, 59, 72, 229, 105,
        24, 111, 230, 40, 175, 96, 0, 3, 197, 144, 134, 172, 60, 0, 0, 0, 0, 74, 221, 72, 255,
        53, 220, 96, 59, 73, 10, 105, 154, 114, 72, 40, 176, 96, 0, 3, 197, 160, 148, 172, 60,
        0, 0, 0, 0, 74, 186, 73, 168, 45, 68, 96, 59, 73, 52, 103, 107, 112, 24, 39, 180, 96, 0,
        3, 197, 176, 162, 172, 60, 0, 0, 0, 0, 73, 239, 76, 58, 76, 58, 96, 60, 73, 97, 100,
        185, 107, 24, 42, 17, 96, 0, 3, 197, 192, 176, 172, 60, 0, 0, 0, 0, 72, 94, 80, 54, 124,
        228, 96, 60, 73, 143, 98, 23, 101, 20, 41, 131, 96, 0, 3, 198, 208, 190, 172, 60, 0, 0,
        0, 0, 70, 207, 80, 250, 96, 0, 96, 60, 73, 179, 99, 213, 104, 92, 39, 29, 96, 0, 3, 198,
        224, 204, 172, 60, 0, 0, 0, 0, 70, 26, 83, 45, 96, 0, 96, 60, 73, 205, 99, 77, 102, 204,
        38, 110, 96, 0, 3, 199, 240, 218, 172, 60, 0, 0, 0, 0, 69, 125, 83, 233, 96, 0, 96, 60,
        73, 218, 100, 0, 104, 2, 38, 139, 96, 0, 3, 199, 0, 233, 172, 60, 0, 0, 0, 0, 69, 84,
        83, 104, 96, 0, 96, 60, 73, 218, 101, 109, 105, 116, 38, 7, 96, 0, 3, 199, 16, 247, 172,
        60, 0, 0, 0, 0, 68, 232, 85, 209, 96, 0, 96, 60, 73, 212, 99, 113, 103, 198, 38, 156,
        96, 0, 3, 199, 32, 5, 173, 60, 0, 0, 0, 0, 68, 40, 88, 108, 96, 0, 96, 60, 73, 197, 98,
        12, 99, 162, 39, 83, 96, 0, 3, 199, 48, 19, 173, 60, 0, 0, 0, 0, 67, 215, 86, 197, 96,
        0, 96, 60, 73, 178, 99, 24, 100, 176, 39, 126, 96, 0, 3, 199, 64, 33, 173, 60, 0, 0, 0,
        0, 67, 209, 87, 185, 96, 0, 96, 60, 73, 159, 99, 192, 102, 224, 39, 133, 96, 0, 3, 199,
        80, 47, 173, 60, 0, 0, 0, 0, 67, 171, 88, 146, 96, 0, 96, 60, 73, 136, 98, 193, 103, 78,
        39, 79, 96, 0, 3, 198, 96, 61, 173, 60, 0, 0, 0, 0, 67, 54, 89, 202, 96, 0, 96, 60, 73,
        112, 98, 114, 100, 146, 38, 236, 96, 0, 3, 198, 112, 75, 173, 60, 0, 0, 0, 0, 126, 41,
        90, 207, 96, 0, 96, 60, 73, 88, 99, 4, 101, 60, 39, 69, 96, 0, 3, 198, 128, 89, 173, 60,
        0, 0, 0, 0, 126, 155, 89, 185, 97, 252, 96, 60, 73, 63, 99, 176, 101, 220, 39, 100, 96,
        0, 3, 199, 144, 103, 173, 60, 0, 0, 0, 0, 67, 87, 87, 243, 70, 54, 96, 59, 73, 37, 99,
        29, 101, 130, 39, 129, 96, 0, 3, 199, 160, 117, 173, 60, 0, 0, 0, 0, 69, 33, 83, 233,
        40, 184, 96, 59, 73, 12, 100, 22, 104, 2, 36, 166, 96, 0, 3, 199, 176, 131, 173, 60, 0,
        0, 0, 0, 70, 189, 78, 129, 49, 40, 96, 59, 72, 244, 102, 3, 108, 118, 36, 161, 96, 0, 3,
        200, 192, 145, 173, 60, 0, 0, 0, 0, 72, 114, 75, 16, 55, 146, 96, 59, 72, 222, 101, 224,
        107, 54, 39, 133, 96, 0, 3, 199,
    ];
    let outcome = process_connection_data(&[&SBS_HEADER[..], &data6[..]].concat()).unwrap();
    match outcome {
        ConnectionOutcome::Decoded(data) => {
            let samples = multiple(data);
            assert_eq!(samples.len(), 24);
            assert_eq!(naive(samples[0].timestamp), date_time("2022-04-04 13:00:00"));
            assert_eq!(naive(samples[23].timestamp), date_time("2022-04-05 12:00:00"));
            for pair in samples.windows(2) {
                assert_eq!(pair[1].timestamp.seconds - pair[0].timestamp.seconds, 3600);
            }
            assert_eq!(float_of(samples[0].air_temperature), 22.74);
            assert_eq!(float_of(samples[0].air_pressure), 966.0);
        }
        _ => panic!("expected weather data, got: '{:?}'", outcome),
    }
}
