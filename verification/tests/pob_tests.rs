use std::io::Write;

use base64::Engine;
use flate2::write::ZlibEncoder;
use flate2::Compression;

use craftpath::pob::{
    build_from_events, decode_pob_code, normalize_pob_code, parse_pob_build, parse_pob_xml,
    PobError, PobEvent,
};

fn encode(xml: &str) -> String {
    let mut enc = ZlibEncoder::new(Vec::new(), Compression::default());
    enc.write_all(xml.as_bytes()).unwrap();
    let bytes = enc.finish().unwrap();
    base64::engine::general_purpose::STANDARD
        .encode(bytes)
        .replace('+', "-")
        .replace('/', "_")
}

#[test]
fn test_roundtrip_pob_code() {
    let xml = r#"<?xml version="1.0" encoding="UTF-8"?>
<PathOfBuilding2>
  <Build level="92" className="Ranger" ascendClassName="Deadeye" mainSocketGroup="1"/>
  <Items activeItemSet="1">
    <Item id="1">Rarity: RARE
Gale Fletch
Expert Composite Bow
Item Level: 82
+25% increased Physical Damage</Item>
    <Item id="2">Rarity: MAGIC
Sapphire Ring of Success</Item>
  </Items>
</PathOfBuilding2>"#;

    let build = parse_pob_build(&encode(xml)).unwrap();
    assert_eq!(build.class_name.as_deref(), Some("Ranger"));
    assert_eq!(build.ascendancy.as_deref(), Some("Deadeye"));
    assert_eq!(build.level, Some(92));
    assert_eq!(build.items.len(), 2);
    assert!(build.items[0].contains("Expert Composite Bow"));
}

#[test]
fn test_rejects_garbage() {
    assert!(parse_pob_build("not-base64!!!").is_err());
    assert!(parse_pob_build(&encode("<NotPob/>")).is_err());
    assert!(parse_pob_build("").is_err());
}

#[test]
fn test_pob_error_kinds() {
    assert_eq!(parse_pob_build("  \n\t "), Err(PobError::EmptyCode()));
    assert_eq!(parse_pob_build("not-base64!!!"), Err(PobError::InvalidBase64()));
    // valid base64 of bytes that are no zlib stream
    assert_eq!(parse_pob_build("aGVsbG8="), Err(PobError::InflateFailed()));
    assert_eq!(parse_pob_build(&encode("<NotPob/>")), Err(PobError::NotPathOfBuilding()));
    assert_eq!(parse_pob_build(&encode("")), Err(PobError::EmptyDocument()));
    assert_eq!(parse_pob_build(&encode("<PathOfBuilding><Build")), Err(PobError::Malformed()));
}

#[test]
fn test_decode_accepts_url_safe_and_unpadded_codes() {
    let xml = "<PathOfBuilding/>";
    let code = encode(xml);
    assert_eq!(decode_pob_code(&code).unwrap(), xml);
    let unpadded = code.trim_end_matches('=').to_string();
    assert_eq!(decode_pob_code(&unpadded).unwrap(), xml);
    let spaced = format!("  {} \n", code);
    assert_eq!(decode_pob_code(&spaced).unwrap(), xml);
    assert_eq!(normalize_pob_code(" a-b_c\n"), "a+b/c");
}

#[test]
fn test_parse_xml_reads_attributes_and_items() {
    let xml = "<PathOfBuildingX><Build className=\"A&amp;B\" level=\"x\"/><Item>  </Item><Item> t </Item></PathOfBuildingX>";
    let b = parse_pob_xml(xml).unwrap();
    assert_eq!(b.class_name.as_deref(), Some("A&B"));
    assert_eq!(b.ascendancy, None);
    assert_eq!(b.level, None);
    assert_eq!(b.items, vec!["t".to_string()]);
}

#[test]
fn test_build_from_events() {
    let root = PobEvent::Element { name: "PathOfBuilding".to_string(), attributes: vec![], text: None };
    let build = PobEvent::Element {
        name: "Build".to_string(),
        attributes: vec![("level".to_string(), Some("7".to_string()))],
        text: None,
    };
    let item = PobEvent::Element { name: "Item".to_string(), attributes: vec![], text: Some(Some(" x ".to_string())) };
    let b = build_from_events(&vec![root.clone(), build, item]).unwrap();
    assert_eq!(b.level, Some(7));
    assert_eq!(b.items, vec!["x".to_string()]);

    let bad_attr = PobEvent::Element {
        name: "Build".to_string(),
        attributes: vec![("className".to_string(), None)],
        text: None,
    };
    assert_eq!(build_from_events(&vec![root.clone(), bad_attr]), Err(PobError::BadAttribute()));
    let bad_item = PobEvent::Element { name: "Item".to_string(), attributes: vec![], text: Some(None) };
    assert_eq!(build_from_events(&vec![root.clone(), bad_item]), Err(PobError::BadItem()));
    assert_eq!(build_from_events(&vec![root, PobEvent::Malformed]), Err(PobError::Malformed()));
    assert_eq!(build_from_events(&vec![]), Err(PobError::EmptyDocument()));
}
