//! Building the character-to-glyph lookup from real character-mapping
//! tables, format by format, and the two construction failures.

use opentype::truetype::tables::character_mapping::{
    CharacterMapping, Encoding, Encoding0, Encoding12, Encoding14, Encoding6, SequentialGroup,
};
use font::mapping::Mapping;
use font::Error;

fn rejection(result: Result<Mapping, Error>) -> Error {
    match result {
        Err(error) => error,
        Ok(_) => panic!("expected a rejection"),
    }
}

fn table(encodings: Vec<Encoding>) -> CharacterMapping {
    CharacterMapping {
        header: Default::default(),
        records: vec![],
        encodings,
    }
}

#[test]
fn read() {
    // Format 0 maps the byte range directly: byte value i to glyph_ids[i].
    let mut glyph_ids = vec![0u8; 256];
    glyph_ids['A' as usize] = 17;
    glyph_ids['z' as usize] = 250;
    let encoding = Encoding0 {
        glyph_ids,
        ..Default::default()
    };
    let mapping = Mapping::new(&table(vec![Encoding::Format0(encoding)])).unwrap();
    assert_eq!(mapping.find('A'), Some(17));
    assert_eq!(mapping.find('z'), Some(250));
    assert_eq!(mapping.find('B'), Some(0));
    assert_eq!(mapping.find('€'), None);
}

#[test]
fn read_format6() {
    // Format 6 maps a dense range starting at first_code.
    let encoding = Encoding6 {
        first_code: 'd' as u16,
        entry_count: 3,
        glyph_ids: vec![7, 8, 9],
        ..Default::default()
    };
    let mapping = Mapping::new(&table(vec![Encoding::Format6(encoding)])).unwrap();
    assert_eq!(mapping.find('d'), Some(7));
    assert_eq!(mapping.find('f'), Some(9));
    assert_eq!(mapping.find('g'), None);
}

#[test]
fn read_format12() {
    // Format 12 maps sequential groups of full Unicode scalars.
    let encoding = Encoding12 {
        group_count: 1,
        groups: vec![SequentialGroup {
            start_code: 0x1F600,
            end_code: 0x1F602,
            start_glyph_id: 10,
        }],
        ..Default::default()
    };
    let mapping = Mapping::new(&table(vec![Encoding::Format12(encoding)])).unwrap();
    assert_eq!(mapping.find('\u{1F600}'), Some(10));
    assert_eq!(mapping.find('\u{1F602}'), Some(12));
    assert_eq!(mapping.find('\u{1F603}'), None);
}

#[test]
fn missing_encoding() {
    assert_eq!(rejection(Mapping::new(&table(vec![]))), Error::MissingEncoding);
}

#[test]
fn unsupported_encoding() {
    let unknown = table(vec![Encoding::Unknown(2)]);
    assert_eq!(rejection(Mapping::new(&unknown)), Error::UnsupportedEncoding);
    let variation = table(vec![Encoding::Format14(Encoding14::default())]);
    assert_eq!(rejection(Mapping::new(&variation)), Error::UnsupportedEncoding);
}

#[test]
fn only_the_first_encoding_counts() {
    let first = Encoding0 {
        glyph_ids: vec![3u8; 256],
        ..Default::default()
    };
    let second = Encoding6 {
        first_code: 0,
        entry_count: 1,
        glyph_ids: vec![9],
        ..Default::default()
    };
    let mapping = Mapping::new(
        &table(vec![Encoding::Format0(first), Encoding::Format6(second)]),
    )
    .unwrap();
    assert_eq!(mapping.find('\u{0}'), Some(3));
}
