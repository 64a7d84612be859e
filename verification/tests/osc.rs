use tattoy::palette::osc::parse_channel;
use tattoy::palette::osc::ParseError;
use tattoy::palette::osc::ReadEvent;
use tattoy::palette::osc::ReadStep;
use tattoy::palette::osc::ResponseReader;
use tattoy::palette::osc::MAX_READ_ATTEMPTS;
use tattoy::palette::osc::OSC;

fn chars(text: &str) -> Vec<char> {
    text.chars().collect()
}

fn whole_response() -> String {
    let mut response = String::new();
    for index in 0..=255u16 {
        response.push_str(&format!("\x1b]4;{index};rgb:{index:02x}{index:02x}/0000/ffff\x07"));
    }
    response.push_str("\x1b]10;rgb:c0c0/caca/f5f5\x07");
    response.push_str("\x1b]11;rgb:1a1a/1b1b/2626\x07");
    response
}

#[test]
fn parsing_osc_colours() {
    let response = "ESC]4;1;rgb:c0c0/2222/eaeaBELLESC]4;229;rgb:aaaa/ffff/afafBELL";
    let palette = OSC::parse_colours(response).unwrap();
    assert_eq!(palette.get("1").unwrap(), (192, 34, 234));
    assert_eq!(palette.get("229").unwrap(), (170, 255, 175));
}

#[test]
fn parsing_foreground_and_background() {
    let response = "ESC]4;0;rgb:0000/0101/0202BELLESC]10;rgb:c0c0/caca/f5f5BELLESC]11;rgb:1a1a/1b1b/2626BELL";
    let palette = OSC::parse_colours(response).unwrap();
    assert_eq!(palette.len(), 3);
    assert_eq!(palette.get("0"), Some((0, 1, 2)));
    assert_eq!(palette.get("foreground"), Some((192, 202, 245)));
    assert_eq!(palette.get("background"), Some((26, 27, 38)));
    assert_eq!(palette.get("7"), None);
}

#[test]
fn parsing_keeps_the_high_byte_of_each_channel() {
    assert_eq!(OSC::parse_rgb(&chars("rgb:12ab/34cd/56ef")), Ok((0xab, 0xcd, 0x56)));
    assert_eq!(OSC::parse_rgb(&chars("rgb:0a/b/c")), Ok((0x0a, 0x0b, 0x0c)));
    assert_eq!(OSC::parse_rgb(&chars("rgb:a/b/c")), Err(ParseError::InvalidRed));
}

#[test]
fn parsing_reports_what_is_wrong() {
    assert_eq!(OSC::parse_colours("ESC]4;1").err(), Some(ParseError::ColourNotFound));
    assert_eq!(OSC::parse_colours("ESC]4;1;rgb:c0c0").err(), Some(ParseError::GreenNotFound));
    assert_eq!(OSC::parse_colours("ESC]4;1;rgb:c0c0/2222").err(), Some(ParseError::BlueNotFound));
    assert_eq!(OSC::parse_colours("ESC]4;1;rgb:c0zz/2222/eaea").err(), Some(ParseError::InvalidRed));
    assert_eq!(OSC::parse_colours("ESC]4;1;rgb:c0c0//eaea").err(), Some(ParseError::InvalidGreen));
    assert_eq!(OSC::parse_colours("ESC]4;1;rgb:c0c0/2222/xyea").err(), Some(ParseError::InvalidBlue));
    assert_eq!(OSC::parse_colours("ESC]10;rgb:c0c0/2222").err(), Some(ParseError::BlueNotFound));
    assert_eq!(OSC::parse_colours("ESC]4;x;rgb:c0c0/2222/eaea").err(), Some(ParseError::InvalidIndex));
    assert_eq!(OSC::parse_colours("ESC]4;256;rgb:c0c0/2222/eaea").err(), Some(ParseError::InvalidIndex));
    assert_eq!(OSC::parse_colours("ESC]4;01;rgb:c0c0/2222/eaea").err(), Some(ParseError::InvalidIndex));
    assert_eq!(OSC::parse_colours("ESC]4;;rgb:c0c0/2222/eaea").err(), Some(ParseError::InvalidIndex));
    assert_eq!(OSC::parse_colours("ESC]4;x").err(), Some(ParseError::InvalidIndex));
}

#[test]
fn what_stands_before_the_first_reply_is_no_reply() {
    let palette = OSC::parse_colours("rubbish").unwrap();
    assert_eq!(palette.len(), 0);
    let palette = OSC::parse_colours("rubbish;rgb:1/2/3ESC]4;7;rgb:0101/0202/0303BELL").unwrap();
    assert_eq!(palette.len(), 1);
    assert_eq!(palette.get("7"), Some((1, 2, 3)));
    assert_eq!(palette.get("rubbish"), None);
}

#[test]
fn replies_that_begin_with_the_foreground_hold_two_colours() {
    let response = "ESC]10;rgb:ffff/0000/8080BELLESC]11;rgb:0101/0202/0303BELL";
    let palette = OSC::parse_colours(response).unwrap();
    assert_eq!(palette.len(), 2);
    assert_eq!(palette.get("foreground"), Some((255, 0, 128)));
    assert_eq!(palette.get("background"), Some((1, 2, 3)));
    assert_eq!(palette.get("ESC]10"), None);
}

#[test]
fn every_key_of_a_parsed_palette_is_a_key_of_the_palette() {
    let responses = [
        "ESC]10;rgb:ffff/0000/8080BELLESC]11;rgb:0101/0202/0303BELL",
        "ESC]11;rgb:0101/0202/0303BELLESC]4;255;rgb:0101/0202/0303BELLESC]4;0;rgb:0101/0202/0303BELL",
        "xESC]4;12;rgb:0101/0202/0303BELLyESC]10;rgb:0101/0202/0303BELL",
    ];
    for response in responses {
        let palette = OSC::parse_colours(response).unwrap();
        assert!(palette.len() > 0);
        for entry in &palette.entries {
            let key: String = entry.key.iter().collect();
            let is_index = key.parse::<u8>().is_ok_and(|index| index.to_string() == key);
            assert!(is_index || key == "foreground" || key == "background", "{key:?}");
        }
    }
}

#[test]
fn an_index_is_a_number_up_to_255_without_leading_zeros() {
    for index in 0..=255u16 {
        assert!(OSC::is_palette_index(&chars(&index.to_string())), "{index}");
    }
    for text in ["", "256", "999", "1000", "00", "01", "007", "-1", "+1", "1a", "a", " 1", "1 ", "٣"] {
        assert!(!OSC::is_palette_index(&chars(text)), "{text:?}");
    }
}

#[test]
fn parsing_an_empty_response_finds_nothing() {
    let palette = OSC::parse_colours("").unwrap();
    assert_eq!(palette.len(), 0);
}

#[test]
fn a_later_reply_replaces_an_earlier_one() {
    let response = "ESC]4;1;rgb:0000/0000/0000BELLESC]4;1;rgb:ffff/ffff/ffffBELL";
    let palette = OSC::parse_colours(response).unwrap();
    assert_eq!(palette.len(), 1);
    assert_eq!(palette.get("1"), Some((255, 255, 255)));
}

#[test]
fn channels_are_hexadecimal_numbers() {
    assert_eq!(parse_channel(&chars("ff")), Some(255));
    assert_eq!(parse_channel(&chars("0A")), Some(10));
    assert_eq!(parse_channel(&chars("+f")), Some(15));
    assert_eq!(parse_channel(&chars("7")), Some(7));
    assert_eq!(parse_channel(&chars("")), None);
    assert_eq!(parse_channel(&chars("+")), None);
    assert_eq!(parse_channel(&chars("-1")), None);
    assert_eq!(parse_channel(&chars("g1")), None);
    assert_eq!(parse_channel(&chars("100")), None);
    assert_eq!(parse_channel(&chars("0ff")), Some(255));
    for text in ["ff", "0A", "+f", "7", "", "+", "-1", "g1", "100", "0ff", " 1", "1_"] {
        assert_eq!(parse_channel(&chars(text)), u8::from_str_radix(text, 16).ok(), "{text:?}");
    }
}

#[test]
fn first_and_last_characters() {
    assert_eq!(OSC::get_first_chars("eaeaBELL", 2), "ea");
    assert_eq!(OSC::get_last_chars("rgb:c0c0", 2), "c0");
    assert_eq!(OSC::get_first_chars("a", 2), "a");
    assert_eq!(OSC::get_last_chars("a", 2), "a");
    assert_eq!(OSC::get_first_chars("", 2), "");
    assert_eq!(OSC::get_last_chars("abc", 0), "");
}

#[test]
fn the_query_asks_for_every_colour() {
    let query = OSC::query();
    assert!(query.starts_with("\x1b]4;0;?\x07\x1b]4;1;?\x07"));
    assert!(query.ends_with("\x1b]4;255;?\x07\x1b]10;?\x07\x1b]11;?\x07"));
    assert_eq!(query.matches('\x07').count(), 258);
}

#[test]
fn the_response_is_decoded_with_its_control_characters_written_out() {
    assert_eq!(OSC::decode_response(b"\x1b]4;1;rgb:c0c0/2222/eaea\x07"), "ESC]4;1;rgb:c0c0/2222/eaeaBELL");
    assert_eq!(OSC::decode_response(b"\x1b]10;rgb:1/2/3\x1c"), "ESC]10;rgb:1/2/3ST");
    assert_eq!(OSC::decode_response(&[0xff, b'a']), "\u{fffd}a");
}

#[test]
fn a_read_that_times_out_gives_up() {
    let mut reader = ResponseReader::new();
    let step = OSC::read_response_step(&mut reader, ReadEvent::TimedOut);
    assert!(matches!(step, ReadStep::GiveUp { found_count: 0 }));
    assert_eq!(reader.attempts, 1);
    assert_eq!(tattoy::palette::osc::WAIT_FOR_RESPONSE_TIMEOUT, 1);
}

#[test]
fn a_partial_response_is_read_again() {
    let mut reader = ResponseReader::new();
    let mut buffer = b"\x1b]4;1;rgb:c0c0/2222/eaea\x07".to_vec();
    buffer.resize(64, 0);
    let step = OSC::read_response_step(&mut reader, ReadEvent::Read(buffer));
    assert!(matches!(step, ReadStep::Again));
    assert_eq!(reader.found_count, 1);
    assert_eq!(reader.all, b"\x1b]4;1;rgb:c0c0/2222/eaea\x07".to_vec());
    let step = OSC::read_response_step(&mut reader, ReadEvent::TimedOut);
    assert!(matches!(step, ReadStep::GiveUp { found_count: 1 }));
}

#[test]
fn a_whole_response_is_the_palette() {
    let mut reader = ResponseReader::new();
    let response = whole_response();
    let (first, second) = response.as_bytes().split_at(1000);
    let step = OSC::read_response_step(&mut reader, ReadEvent::Read(first.to_vec()));
    assert!(matches!(step, ReadStep::Again));
    let step = OSC::read_response_step(&mut reader, ReadEvent::Read(second.to_vec()));
    match step {
        ReadStep::Complete(palette) => {
            assert_eq!(palette.len(), 258);
            assert_eq!(palette.get("200"), Some((200, 0, 255)));
            assert_eq!(palette.get("foreground"), Some((192, 202, 245)));
            assert_eq!(palette.get("background"), Some((26, 27, 38)));
        }
        other => panic!("the palette is not whole: {other:?}"),
    }
}

#[test]
fn too_many_reads_give_up() {
    let mut reader = ResponseReader::new();
    for _ in 0..MAX_READ_ATTEMPTS {
        let step = OSC::read_response_step(&mut reader, ReadEvent::Read(vec![0; 8]));
        assert!(matches!(step, ReadStep::Again));
    }
    let step = OSC::read_response_step(&mut reader, ReadEvent::Read(vec![0; 8]));
    assert!(matches!(step, ReadStep::GiveUp { found_count: 0 }));
}

#[test]
fn a_palette_needs_every_colour() {
    let response = tattoy::palette::osc::OSC::decode_response(whole_response().as_bytes());
    let palette = tattoy::palette::converter::Palette::from_osc(&response).unwrap();
    assert_eq!(palette.map.get("255"), Some((255, 0, 255)));
    assert_eq!(palette.map.get("background"), Some((26, 27, 38)));
    let lacking = response.replace("ESC]4;7;", "ESC]4;8;");
    assert!(tattoy::palette::converter::Palette::from_osc(&lacking).is_none());
    assert!(tattoy::palette::converter::Palette::from_osc("ESC]4;1").is_none());
}
