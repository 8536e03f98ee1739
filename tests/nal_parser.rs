use camera_stream::nal_parser::{H264Parser, H264ParserError};

fn split(buffer: &[u8]) -> Result<Vec<Vec<u8>>, H264ParserError> {
    let mut parser = H264Parser::new(buffer);
    let mut units = Vec::new();
    while let Some(unit) = parser.next_buffer()? {
        units.push(unit.to_vec());
    }
    Ok(units)
}

#[test]
fn four_and_three_byte_start_codes() {
    let input = [0x00, 0x00, 0x00, 0x01, 0xAA, 0xBB, 0x00, 0x00, 0x01, 0xCC];
    assert_eq!(split(&input).unwrap(), vec![vec![0xAA, 0xBB], vec![0xCC]]);
}

#[test]
fn trailing_zeros_without_start_code_stay_in_unit() {
    let input = [0x00, 0x00, 0x01, 0xAA, 0x00, 0x00, 0x00];
    assert_eq!(split(&input).unwrap(), vec![vec![0xAA, 0x00, 0x00, 0x00]]);
}

#[test]
fn empty_buffer_has_no_units() {
    assert_eq!(split(&[]).unwrap(), Vec::<Vec<u8>>::new());
}

#[test]
fn end_of_sequence_repeats() {
    let input = [0x00, 0x00, 0x01, 0x65];
    let mut parser = H264Parser::new(&input);
    assert_eq!(parser.next_buffer().unwrap(), Some(&[0x65u8][..]));
    assert_eq!(parser.next_buffer().unwrap(), None);
    assert_eq!(parser.next_buffer().unwrap(), None);
    assert_eq!(parser.next_buffer().unwrap(), None);
}

#[test]
fn single_unit_with_payload() {
    let payload = [0x67, 0x42, 0x00, 0x1F, 0x95, 0xA8, 0x14];
    let mut input = vec![0x00, 0x00, 0x00, 0x01];
    input.extend_from_slice(&payload);
    assert_eq!(split(&input).unwrap(), vec![payload.to_vec()]);
}

#[test]
fn short_zero_run_kept_in_last_unit() {
    let input = [0x00, 0x00, 0x01, 0x11, 0x22, 0x00, 0x00];
    assert_eq!(split(&input).unwrap(), vec![vec![0x11, 0x22, 0x00, 0x00]]);
    let input = [0x00, 0x00, 0x01, 0x11, 0x00];
    assert_eq!(split(&input).unwrap(), vec![vec![0x11, 0x00]]);
}

#[test]
fn round_trip_of_several_units() {
    let payloads: Vec<Vec<u8>> = vec![
        vec![0x67, 0x42, 0x00, 0x1F],
        vec![0x68, 0xCE, 0x3C, 0x80],
        vec![],
        vec![0x65, 0x00],
        vec![0x41, 0x9A, 0x02],
    ];
    let four = [true, false, true, false, true];
    let mut input = Vec::new();
    for (p, f) in payloads.iter().zip(four.iter()) {
        if *f {
            input.extend_from_slice(&[0, 0, 0, 1]);
        } else {
            input.extend_from_slice(&[0, 0, 1]);
        }
        input.extend_from_slice(p);
    }
    let units = split(&input).unwrap();
    assert_eq!(units, payloads);
    assert_eq!(units.concat(), payloads.concat());
}

#[test]
fn extra_zero_padding_belongs_to_previous_unit() {
    let input = [0x00, 0x00, 0x01, 0xAA, 0x00, 0x00, 0x00, 0x00, 0x01, 0xBB];
    assert_eq!(split(&input).unwrap(), vec![vec![0xAA, 0x00], vec![0xBB]]);
}

#[test]
fn empty_unit_between_start_codes() {
    let input = [0x00, 0x00, 0x01, 0x00, 0x00, 0x01, 0xCC];
    assert_eq!(split(&input).unwrap(), vec![vec![], vec![0xCC]]);
}

#[test]
fn missing_leading_zeros_is_invalid() {
    let mut parser = H264Parser::new(&[0x01, 0x00, 0x00, 0x01]);
    assert_eq!(parser.next_buffer(), Err(H264ParserError::InvalidHeader));
    let mut parser = H264Parser::new(&[0x00, 0x01, 0x00, 0x01]);
    assert_eq!(parser.next_buffer(), Err(H264ParserError::InvalidHeader));
    let mut parser = H264Parser::new(&[0x00]);
    assert_eq!(parser.next_buffer(), Err(H264ParserError::InvalidHeader));
}

#[test]
fn bad_start_code_after_zeros_is_invalid() {
    assert_eq!(split(&[0x00, 0x00, 0x02, 0x01]), Err(H264ParserError::InvalidHeader));
    assert_eq!(split(&[0x00, 0x00, 0x00, 0x02]), Err(H264ParserError::InvalidHeader));
    assert_eq!(split(&[0x00, 0x00, 0x00]), Err(H264ParserError::InvalidHeader));
    assert_eq!(split(&[0x00, 0x00]), Err(H264ParserError::InvalidHeader));
}

#[test]
fn error_stays_on_retry() {
    let input = [0x00, 0x00, 0x01, 0xAA, 0x00, 0x00, 0x01];
    let mut parser = H264Parser::new(&input);
    assert_eq!(parser.next_buffer().unwrap(), Some(&[0xAAu8][..]));
    assert_eq!(parser.next_buffer().unwrap(), Some(&[][..]));
    assert_eq!(parser.next_buffer().unwrap(), None);
    let mut parser = H264Parser::new(&[0x00, 0x00, 0x05]);
    assert_eq!(parser.next_buffer(), Err(H264ParserError::InvalidHeader));
    assert_eq!(parser.next_buffer(), Err(H264ParserError::InvalidHeader));
}

#[test]
fn parser_error_message() {
    assert_eq!(H264ParserError::InvalidHeader.message(), "Invalid NAL Header");
}

#[test]
fn trailing_zero_before_three_byte_start_code_joins_it() {
    let input = [0x00, 0x00, 0x01, 0xAA, 0x00, 0x00, 0x00, 0x01, 0xCC];
    assert_eq!(split(&input).unwrap(), vec![vec![0xAA], vec![0xCC]]);
}
