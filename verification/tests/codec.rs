use mini_alpha::thyracont_sensor::{
    Exchange, Field, ParseError, PortStep, ProbeError, Reading, Response, TyracontSensor, CMD_ID,
    CMD_PRESSURE, FRAME_END, SETTLE_DELAY_MS,
};

/// A frame around `body`, with the checksum worked out by hand.
fn frame(body: &[u8]) -> Vec<u8> {
    let sum: u32 = body.iter().map(|b| *b as u32).sum();
    let mut out = body.to_vec();
    out.push((sum % 64 + 64) as u8);
    out.push(b'\r');
    out
}

#[test]
fn crc_is_byte_sum_modulo_64_plus_64() {
    assert_eq!(TyracontSensor::calc_crc(b""), 64);
    assert_eq!(TyracontSensor::calc_crc(b"001T"), 101);
    assert_eq!(TyracontSensor::calc_crc(b"001M"), 94);
    assert_eq!(TyracontSensor::calc_crc(b"001M123425"), 79);
    assert_eq!(TyracontSensor::calc_crc(&[255u8; 1000]), (255_000u32 % 64 + 64) as u8);
}

#[test]
fn crc_stays_between_64_and_127() {
    for len in 0..200usize {
        let data: Vec<u8> = (0..len).map(|i| (i * 37 % 256) as u8).collect();
        let crc = TyracontSensor::calc_crc(&data);
        assert!((64..128).contains(&crc));
    }
}

#[test]
fn protocol_constants() {
    assert_eq!(CMD_ID, b'T');
    assert_eq!(CMD_PRESSURE, b'M');
    assert_eq!(FRAME_END, b'\r');
    assert_eq!(SETTLE_DELAY_MS, 35);
}

#[test]
fn request_is_address_in_three_digits_then_command() {
    assert_eq!(TyracontSensor::new(1).request(b'T'), b"001T".to_vec());
    assert_eq!(TyracontSensor::new(42).request(b'M'), b"042M".to_vec());
    assert_eq!(TyracontSensor::new(255).request(b'M'), b"255M".to_vec());
    assert_eq!(TyracontSensor::new(0).request(b'T'), b"000T".to_vec());
}

#[test]
fn write_request_appends_checksum_and_terminator() {
    assert_eq!(TyracontSensor::write_request(b"001T"), b"001Te\r".to_vec());
    assert_eq!(TyracontSensor::write_request(b"001M"), b"001M^\r".to_vec());
    assert_eq!(TyracontSensor::write_request(b""), b"@\r".to_vec());
}

#[test]
fn id_and_pressure_requests() {
    let sensor = TyracontSensor::new(1);
    assert_eq!(sensor.exchange_request(Exchange::Probe), b"001Te\r".to_vec());
    assert_eq!(sensor.exchange_request(Exchange::Poll), b"001M^\r".to_vec());
    let other = TyracontSensor::new(123);
    assert_eq!(other.exchange_request(Exchange::Probe), frame(b"123T"));
    assert_eq!(other.exchange_request(Exchange::Poll), frame(b"123M"));
    assert_eq!(Exchange::Probe.command(), b'T');
    assert_eq!(Exchange::Poll.command(), b'M');
}

#[test]
fn poll_flushes_before_it_sends_and_probe_after() {
    assert_eq!(
        Exchange::Poll.steps(),
        [PortStep::FlushRx, PortStep::Transmit, PortStep::Settle, PortStep::Receive]
    );
    assert_eq!(
        Exchange::Probe.steps(),
        [PortStep::Transmit, PortStep::FlushRx, PortStep::Settle, PortStep::Receive]
    );
}

#[test]
fn a_request_reads_back_as_a_frame_of_its_own_kind() {
    let sensor = TyracontSensor::new(7);
    let probe = sensor.exchange_request(Exchange::Probe);
    assert_eq!(
        TyracontSensor::decode_resp(&probe),
        Ok(Response::Id { addr: 7, id: String::new() })
    );
    let poll = sensor.exchange_request(Exchange::Poll);
    assert_eq!(
        TyracontSensor::decode_resp(&poll),
        Err(ParseError::ValueError(Field::Mantissa))
    );
}

#[test]
fn decodes_pressure_mantissa_1234_exponent_25() {
    let r = TyracontSensor::decode_resp(b"001M123425O\r");
    assert_eq!(r, Ok(Response::Pressure(Reading { mantissa: 1234, exponent: 25 })));
    let reading = Reading { mantissa: 1234, exponent: 25 };
    assert_eq!(reading.micro_mbar(), Some(123_400_000_000));
    let mbar = reading.micro_mbar().unwrap() as f64 / 1e6;
    assert_eq!(mbar, 1234.0 / 1000.0 * 1e5);
}

#[test]
fn pressure_round_trips_for_every_exponent_and_many_mantissas() {
    for addr in [0u8, 1, 9, 10, 99, 100, 255] {
        for exponent in 0..100i32 {
            for mantissa in [0u32, 1, 9, 10, 999, 1000, 1234, 9999] {
                let body = format!("{addr:03}M{mantissa:04}{exponent:02}");
                let r = TyracontSensor::decode_resp(&frame(body.as_bytes()));
                assert_eq!(r, Ok(Response::Pressure(Reading { mantissa, exponent })));
            }
        }
    }
}

#[test]
fn decodes_identifier() {
    let r = TyracontSensor::decode_resp(b"001TVSP206v\r");
    assert_eq!(r, Ok(Response::Id { addr: 1, id: "VSP206".to_string() }));
    let r = TyracontSensor::decode_resp(&frame(b"255T"));
    assert_eq!(r, Ok(Response::Id { addr: 255, id: String::new() }));
    let r = TyracontSensor::decode_resp(&frame("017Tдатчик".as_bytes()));
    assert_eq!(r, Ok(Response::Id { addr: 17, id: "датчик".to_string() }));
}

#[test]
fn identifier_that_is_not_utf8_is_a_value_error() {
    let r = TyracontSensor::decode_resp(&frame(&[b'0', b'0', b'1', b'T', 0xff, 0xfe]));
    assert_eq!(r, Err(ParseError::ValueError(Field::Id)));
    let r = TyracontSensor::decode_resp(&frame(&[b'0', b'0', b'1', b'T', b'a', 0xc3]));
    assert_eq!(r, Err(ParseError::ValueError(Field::Id)));
}

#[test]
fn bytes_without_terminator_are_incomplete() {
    assert_eq!(TyracontSensor::decode_resp(b""), Err(ParseError::Incomplete));
    assert_eq!(TyracontSensor::decode_resp(b"001M123425O"), Err(ParseError::Incomplete));
    assert_eq!(TyracontSensor::decode_resp(b"001M123425O\r0"), Err(ParseError::Incomplete));
    assert_eq!(TyracontSensor::decode_resp(b"\n"), Err(ParseError::Incomplete));
}

#[test]
fn lone_terminator_is_incomplete() {
    assert_eq!(TyracontSensor::decode_resp(b"\r"), Err(ParseError::Incomplete));
}

#[test]
fn wrong_checksum_is_a_crc_error_with_both_values() {
    let r = TyracontSensor::decode_resp(b"001M123425P\r");
    assert_eq!(r, Err(ParseError::CrcError { msg: b'P', actual: b'O' }));
    let r = TyracontSensor::decode_resp(b"A\r");
    assert_eq!(r, Err(ParseError::CrcError { msg: b'A', actual: 64 }));
}

#[test]
fn changing_one_body_byte_fails_the_checksum() {
    let good = b"001M123425O\r".to_vec();
    assert!(TyracontSensor::decode_resp(&good).is_ok());
    for i in 0..good.len() - 2 {
        for delta in 1..64u8 {
            let mut bad = good.clone();
            bad[i] = bad[i].wrapping_add(delta);
            match TyracontSensor::decode_resp(&bad) {
                Err(ParseError::CrcError { msg, actual }) => {
                    assert_eq!(msg, b'O');
                    assert_ne!(actual, b'O');
                },
                other => panic!("byte {i} plus {delta}: {other:?}"),
            }
        }
    }
}

#[test]
fn changing_one_body_byte_by_a_multiple_of_64_keeps_the_checksum() {
    let mut data = b"001M123425O\r".to_vec();
    data[9] = data[9] + 64;
    assert_eq!(
        TyracontSensor::decode_resp(&data),
        Err(ParseError::ValueError(Field::Exponent))
    );
}

#[test]
fn malformed_address_is_a_value_error() {
    for body in ["0a1T", "   T", "256T", "999M123425", "-01T", "1", "12", "+ 1T", "++1T"] {
        let r = TyracontSensor::decode_resp(&frame(body.as_bytes()));
        assert_eq!(r, Err(ParseError::ValueError(Field::Address)), "{body}");
    }
    assert_eq!(
        TyracontSensor::decode_resp(b"@\r"),
        Err(ParseError::ValueError(Field::Address))
    );
}

#[test]
fn address_may_carry_a_plus_sign() {
    let r = TyracontSensor::decode_resp(&frame(b"+12T"));
    assert_eq!(r, Ok(Response::Id { addr: 12, id: String::new() }));
}

#[test]
fn missing_or_other_command_is_unknown() {
    for body in ["001", "001X", "001m123425", "001t", "001 "] {
        let r = TyracontSensor::decode_resp(&frame(body.as_bytes()));
        assert_eq!(r, Err(ParseError::Unknown), "{body}");
    }
}

#[test]
fn malformed_mantissa_is_a_value_error() {
    for body in ["001M", "001M1", "001M123", "001M12a425", "001M-12325", "001M    25", "001M12 425"]
    {
        let r = TyracontSensor::decode_resp(&frame(body.as_bytes()));
        assert_eq!(r, Err(ParseError::ValueError(Field::Mantissa)), "{body}");
    }
}

#[test]
fn malformed_exponent_is_a_value_error() {
    for body in ["001M1234", "001M12342", "001M1234a5", "001M1234  ", "001M1234+-", "001M12342-"] {
        let r = TyracontSensor::decode_resp(&frame(body.as_bytes()));
        assert_eq!(r, Err(ParseError::ValueError(Field::Exponent)), "{body}");
    }
}

#[test]
fn signs_in_the_payload() {
    let r = TyracontSensor::decode_resp(&frame(b"001M1234-5"));
    assert_eq!(r, Ok(Response::Pressure(Reading { mantissa: 1234, exponent: -5 })));
    let r = TyracontSensor::decode_resp(&frame(b"001M1234+5"));
    assert_eq!(r, Ok(Response::Pressure(Reading { mantissa: 1234, exponent: 5 })));
    let r = TyracontSensor::decode_resp(&frame(b"001M+23420"));
    assert_eq!(r, Ok(Response::Pressure(Reading { mantissa: 234, exponent: 20 })));
}

#[test]
fn bytes_behind_the_payload_are_not_looked_at() {
    let r = TyracontSensor::decode_resp(&frame(b"001M123425xyz"));
    assert_eq!(r, Ok(Response::Pressure(Reading { mantissa: 1234, exponent: 25 })));
}

#[test]
fn probe_finds_the_identifier() {
    let sensor = TyracontSensor::new(1);
    assert_eq!(sensor.get_id(b"001TVSP206v\r"), Ok(Some("VSP206".to_string())));
}

#[test]
fn probe_sees_no_device_on_incomplete_or_corrupt_reply() {
    let sensor = TyracontSensor::new(1);
    assert_eq!(sensor.get_id(b""), Ok(None));
    assert_eq!(sensor.get_id(b"001TVSP206v"), Ok(None));
    assert_eq!(sensor.get_id(b"001TVSP206w\r"), Ok(None));
}

#[test]
fn probe_fails_on_any_other_reply() {
    let sensor = TyracontSensor::new(1);
    assert_eq!(sensor.get_id(b"001M123425O\r"), Err(ProbeError::WrongResponse));
    assert_eq!(
        sensor.get_id(&frame(b"001X")),
        Err(ProbeError::Decode(ParseError::Unknown))
    );
    assert_eq!(
        sensor.get_id(&frame(b"0x1T")),
        Err(ProbeError::Decode(ParseError::ValueError(Field::Address)))
    );
    assert_eq!(
        sensor.get_id(&frame(&[b'0', b'0', b'1', b'T', 0x80])),
        Err(ProbeError::Decode(ParseError::ValueError(Field::Id)))
    );
}

#[test]
fn poll_gives_the_reading_or_nothing() {
    let sensor = TyracontSensor::new(1);
    assert_eq!(
        sensor.read(b"001M123425O\r"),
        Some(Reading { mantissa: 1234, exponent: 25 })
    );
    assert_eq!(sensor.read(b""), None);
    assert_eq!(sensor.read(b"001M123425O"), None);
    assert_eq!(sensor.read(b"001M123425P\r"), None);
    assert_eq!(sensor.read(b"001TVSP206v\r"), None);
    assert_eq!(sensor.read(&frame(b"001X")), None);
    assert_eq!(sensor.read(&frame(b"001M12x425")), None);
}

#[test]
fn reading_in_millionths_of_a_millibar() {
    assert_eq!(Reading { mantissa: 1000, exponent: 20 }.micro_mbar(), Some(1_000_000));
    assert_eq!(Reading { mantissa: 1013, exponent: 23 }.micro_mbar(), Some(1_013_000_000));
    assert_eq!(Reading { mantissa: 5, exponent: 17 }.micro_mbar(), Some(5));
    assert_eq!(Reading { mantissa: 1234, exponent: 16 }.micro_mbar(), Some(123));
    assert_eq!(Reading { mantissa: 1234, exponent: 14 }.micro_mbar(), Some(1));
    assert_eq!(Reading { mantissa: 1234, exponent: 13 }.micro_mbar(), Some(0));
    assert_eq!(Reading { mantissa: 9999, exponent: 0 }.micro_mbar(), Some(0));
    assert_eq!(Reading { mantissa: u32::MAX, exponent: i32::MIN }.micro_mbar(), Some(0));
    assert_eq!(Reading { mantissa: u32::MAX, exponent: 8 }.micro_mbar(), Some(4));
    assert_eq!(Reading { mantissa: 0, exponent: i32::MAX }.micro_mbar(), Some(0));
    assert_eq!(Reading { mantissa: 0, exponent: i32::MIN }.micro_mbar(), Some(0));
}

#[test]
fn reading_beyond_the_range_is_none() {
    assert_eq!(
        Reading { mantissa: 9, exponent: 35 }.micro_mbar(),
        Some(9_000_000_000_000_000_000)
    );
    assert_eq!(Reading { mantissa: 10, exponent: 35 }.micro_mbar(), None);
    assert_eq!(Reading { mantissa: 1, exponent: 36 }.micro_mbar(), None);
    assert_eq!(Reading { mantissa: 9999, exponent: 99 }.micro_mbar(), None);
    assert_eq!(Reading { mantissa: 1, exponent: i32::MAX }.micro_mbar(), None);
    assert_eq!(
        Reading { mantissa: 9223, exponent: 32 }.micro_mbar(),
        Some(9_223_000_000_000_000_000)
    );
    assert_eq!(Reading { mantissa: 9224, exponent: 32 }.micro_mbar(), None);
}
