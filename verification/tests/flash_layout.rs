use homestat::flash::{Cyw43439Regions, FlashRegion, align_down};
use homestat::hexstring::{HexDecodeError, HexStringError, deserialize, serialize};

fn example() -> Cyw43439Regions {
    Cyw43439Regions::at_end(0x3ccea, 0x1290)
}

#[test]
fn print_debug() {
    println!("debug:");
    println!("{:#x?}", example());
}

#[test]
fn print_linker() {
    println!("linker:");
    let mut out = String::new();
    example().write_linker(&mut out);
    println!("{}", out);
}

/// The flash metadata file that flashing the firmware writes for the
/// example blob sizes.
const FLASH_METADATA: &str = r#"{
  "main": {
    "origin": "0x101c1000",
    "length": "0x3ccea"
  },
  "clm": {
    "origin": "0x101fe000",
    "length": "0x1290"
  }
}"#;

fn region_from_json(v: &serde_json::Value) -> FlashRegion {
    let origin = v.get("origin").and_then(|o| o.as_str()).expect("origin");
    let length = v.get("length").and_then(|l| l.as_str()).expect("length");
    FlashRegion {
        origin: deserialize(origin).expect("origin is a hex string"),
        length: deserialize(length).expect("length is a hex string"),
    }
}

#[test]
fn test_regions() {
    let json: serde_json::Value = serde_json::from_str(FLASH_METADATA).unwrap();
    let regions = Cyw43439Regions {
        main: region_from_json(json.get("main").unwrap()),
        clm: region_from_json(json.get("clm").unwrap()),
    };

    println!("regions: {:?}", regions);
    assert_eq!(regions, example());
}

fn region_to_json(r: &FlashRegion) -> serde_json::Value {
    let mut m = serde_json::Map::new();
    m.insert(String::from("origin"), serde_json::Value::String(serialize(&r.origin)));
    m.insert(String::from("length"), serde_json::Value::String(serialize(&r.length)));
    serde_json::Value::Object(m)
}

fn regions_to_json(r: &Cyw43439Regions) -> String {
    let mut m = serde_json::Map::new();
    m.insert(String::from("main"), region_to_json(&r.main));
    m.insert(String::from("clm"), region_to_json(&r.clm));
    serde_json::to_string_pretty(&serde_json::Value::Object(m)).unwrap()
}

#[test]
fn print_json() {
    println!("json:");
    println!("{}", regions_to_json(&example()));
}

#[test]
fn json_roundtrip() {
    let start = example();
    let text = regions_to_json(&start);
    let json: serde_json::Value = serde_json::from_str(&text).unwrap();
    let new = Cyw43439Regions {
        main: region_from_json(json.get("main").unwrap()),
        clm: region_from_json(json.get("clm").unwrap()),
    };

    assert_eq!(start, new);
}

#[test]
fn at_end_example_values() {
    let r = example();
    assert_eq!(r.clm, FlashRegion { origin: 0x101f_e000, length: 0x1290 });
    assert_eq!(r.main, FlashRegion { origin: 0x101c_1000, length: 0x3ccea });
}

#[test]
fn at_end_empty_blobs() {
    let r = Cyw43439Regions::at_end(0, 0);
    assert_eq!(r.clm, FlashRegion { origin: 0x1020_0000, length: 0 });
    assert_eq!(r.main, FlashRegion { origin: 0x1020_0000, length: 0 });
}

#[test]
fn align_down_values() {
    assert_eq!(align_down(0), 0);
    assert_eq!(align_down(4095), 0);
    assert_eq!(align_down(4096), 4096);
    assert_eq!(align_down(0x101f_ed70), 0x101f_e000);
    assert_eq!(align_down(u32::MAX), 0xffff_f000);
}

#[test]
fn linker_script_text() {
    let mut out = String::new();
    example().write_linker(&mut out);
    assert_eq!(
        out,
        "cyw43_main_origin = 0x101c1000;\ncyw43_main_length = 0x3ccea;\n\
         cyw43_clm_origin = 0x101fe000;\ncyw43_clm_length = 0x1290;\n"
    );
}

#[test]
fn linker_lines_custom_prefix() {
    let mut out = String::from("x\n");
    FlashRegion { origin: 0, length: 0xffff_ffff }.write_linker_lines(&mut out, "p");
    assert_eq!(out, "x\np_origin = 0x0;\np_length = 0xffffffff;\n");
}

#[test]
fn hexstring_serialize_values() {
    assert_eq!(serialize(&0), "0x0");
    assert_eq!(serialize(&0x101c_1000), "0x101c1000");
    assert_eq!(serialize(&u32::MAX), "0xffffffff");
    assert_eq!(serialize(&0xab), "0xab");
}

#[test]
fn hexstring_deserialize_values() {
    assert_eq!(deserialize("0x1290"), Ok(0x1290));
    assert_eq!(deserialize("0x3ccea"), Ok(0x3ccea));
    assert_eq!(deserialize("0xFFFFFFFF"), Ok(u32::MAX));
    assert_eq!(deserialize("0x0"), Ok(0));
    // the first two characters are not checked
    assert_eq!(deserialize("zz12"), Ok(0x12));
}

#[test]
fn hexstring_deserialize_errors() {
    assert_eq!(deserialize("0x"), Err(HexStringError::BadLength));
    assert_eq!(deserialize(""), Err(HexStringError::BadLength));
    assert_eq!(deserialize("0x123456789"), Err(HexStringError::BadLength));
    assert_eq!(
        deserialize("0xg1"),
        Err(HexStringError::Hex(HexDecodeError::InvalidHexCharacter { c: 'g', index: 0 }))
    );
    assert_eq!(
        deserialize("0x1g"),
        Err(HexStringError::Hex(HexDecodeError::InvalidHexCharacter { c: 'g', index: 1 }))
    );
    // an odd number of digits gets a leading zero, which shifts the index
    assert_eq!(
        deserialize("0xabg"),
        Err(HexStringError::Hex(HexDecodeError::InvalidHexCharacter { c: 'g', index: 3 }))
    );
}

#[test]
fn hexstring_roundtrip_values() {
    for v in [0u32, 1, 0xf, 0x10, 0x1290, 0x3ccea, 0x101c_1000, 0x7fff_ffff, u32::MAX] {
        assert_eq!(deserialize(&serialize(&v)), Ok(v));
    }
}
