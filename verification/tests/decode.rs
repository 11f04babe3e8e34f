use adsb_receiver::frame::{decode, outcome_of, DecodeOutcome, FRAME_LEN};

const POSITION: [u8; 14] = [
    0x8d, 0xa2, 0xc1, 0xbd, 0x58, 0x7b, 0xa2, 0xad, 0xb3, 0x17, 0x99, 0xcb, 0x80, 0x2b,
];

const POSITION_TEXT: &str = " Extended Squitter Airborne position (barometric altitude)
  Address:       a2c1bd (Mode S / ADS-B)
  Air/Ground:    airborne
  Altitude:      23650 ft barometric
  CPR type:      Airborne
  CPR odd flag:  even
  CPR latitude:  (87769)
  CPR longitude: (71577)
";

const NOISE: [u8; 14] = [
    0x3a, 0x91, 0xf0, 0x5c, 0x07, 0xe3, 0x48, 0xb6, 0x1d, 0xa9, 0x72, 0xc4, 0x6f, 0x0b,
];

fn rendered(outcome: &DecodeOutcome) -> Option<String> {
    match outcome {
        DecodeOutcome::DecodedFrame(frame) => Some(frame.rendered().clone()),
        DecodeOutcome::NotAFrame => None,
    }
}

#[test]
fn frame_length_is_fourteen() {
    assert_eq!(FRAME_LEN, 14);
    assert_eq!(POSITION.len(), FRAME_LEN);
}

#[test]
fn extended_squitter_decodes_to_its_rendering() {
    let outcome = decode(&POSITION);
    assert!(outcome.is_frame());
    assert_eq!(rendered(&outcome), Some(POSITION_TEXT.to_string()));
}

#[test]
fn rendering_is_not_the_input_bytes() {
    let outcome = decode(&POSITION);
    let text = rendered(&outcome).unwrap();
    assert_ne!(text.as_bytes(), &POSITION[..]);
    assert!(text.contains("a2c1bd"));
}

#[test]
fn decoding_twice_gives_the_same_rendering() {
    let first = decode(&POSITION);
    let second = decode(&POSITION);
    assert_eq!(rendered(&first), rendered(&second));
    let third = decode(&NOISE);
    let fourth = decode(&NOISE);
    assert_eq!(rendered(&third), rendered(&fourth));
}

#[test]
fn noise_is_not_a_frame() {
    let outcome = decode(&NOISE);
    assert!(!outcome.is_frame());
    assert!(matches!(outcome, DecodeOutcome::NotAFrame));
}

#[test]
fn all_zero_buffer_decodes_without_a_crash() {
    let outcome = decode(&[0u8; 14]);
    let text = " Short Air-Air Surveillance
  ICAO Address:  000000 (Mode S / ADS-B)
  Air/Ground:    ground
";
    assert_eq!(rendered(&outcome), Some(text.to_string()));
}

#[test]
fn unassigned_format_is_not_a_frame() {
    let mut bytes = POSITION;
    bytes[0] = 0x0f;
    assert!(!decode(&bytes).is_frame());
}

#[test]
fn outcome_of_a_rendering_is_a_decoded_frame() {
    let outcome = outcome_of(Some("text".to_string()));
    assert!(outcome.is_frame());
    match outcome {
        DecodeOutcome::DecodedFrame(frame) => {
            assert_eq!(frame.rendered(), "text");
            assert_eq!(frame.into_rendered(), "text".to_string());
        }
        DecodeOutcome::NotAFrame => panic!("a rendering was given"),
    }
}

#[test]
fn outcome_of_nothing_is_not_a_frame() {
    let outcome = outcome_of(None);
    assert!(!outcome.is_frame());
    assert!(matches!(outcome, DecodeOutcome::NotAFrame));
}

#[test]
fn every_buffer_gives_an_outcome() {
    let mut state: u32 = 0x2545_f491;
    let mut frames: u32 = 0;
    for first in 0u16..=255 {
        for _ in 0..40 {
            let mut bytes = [0u8; 14];
            bytes[0] = first as u8;
            for byte in bytes.iter_mut().skip(1) {
                state = state.wrapping_mul(1_664_525).wrapping_add(1_013_904_223);
                *byte = (state >> 24) as u8;
            }
            let outcome = decode(&bytes);
            let again = decode(&bytes);
            assert_eq!(rendered(&outcome), rendered(&again));
            if outcome.is_frame() {
                frames += 1;
            }
        }
    }
    assert!(frames > 0);
}

#[test]
fn extended_squitters_of_every_type_give_an_outcome() {
    let mut state: u32 = 0x9e37_79b9;
    let mut frames: u32 = 0;
    for first in 0x88u8..=0x97 {
        for message in 0u16..=255 {
            for round in 0..3 {
                let mut bytes = [0u8; 14];
                for byte in bytes.iter_mut() {
                    state = state.wrapping_mul(1_664_525).wrapping_add(1_013_904_223);
                    *byte = match round {
                        0 => 0x00,
                        1 => 0xff,
                        _ => (state >> 24) as u8,
                    };
                }
                bytes[0] = first;
                bytes[4] = message as u8;
                let outcome = decode(&bytes);
                if outcome.is_frame() {
                    frames += 1;
                    assert!(!rendered(&outcome).unwrap().is_empty());
                }
            }
        }
    }
    assert!(frames > 0);
}

#[test]
fn short_formats_with_extreme_fields_give_an_outcome() {
    for first in 0u16..=255 {
        for fill in [0x00u8, 0xff, 0x55, 0xaa, 0x0f, 0xf0, 0x01, 0x80] {
            let mut bytes = [fill; 14];
            bytes[0] = first as u8;
            let outcome = decode(&bytes);
            let again = decode(&bytes);
            assert_eq!(rendered(&outcome), rendered(&again));
        }
    }
}
