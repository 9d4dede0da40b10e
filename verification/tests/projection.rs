use decoderrs::bits::BitCursor;
use decoderrs::cat21::decode_cat21;
use decoderrs::cat48::decode_cat48;
use decoderrs::names::{
    acas_status_name, applicable_mops_doc_name, arc_name, atp_name, climb_desc_name,
    communications_capability_name, flight_status_name, foe_fri_name, rab_name, rc_name,
    si_ii_name, ta_ra_name, target_alt_source_name, target_type_name, type_of_sensor_name,
};
use decoderrs::projection::{
    project_cat21, project_cat48, project_record, put_flag, put_number, put_scaled, put_text,
    Field, FieldValue,
};
use decoderrs::stream::Record;
use decoderrs::units::Scaled;

fn names(fields: &[Field]) -> Vec<&str> {
    fields.iter().map(|f| f.name.as_str()).collect()
}

fn find<'a>(fields: &'a [Field], name: &str) -> &'a FieldValue {
    &fields.iter().find(|f| f.name == name).unwrap().value
}

fn text(s: &str) -> FieldValue {
    FieldValue::Text(s.to_string())
}

#[test]
fn tables_of_category_48() {
    let types: Vec<&str> = (0..8).map(target_type_name).collect();
    assert_eq!(
        types,
        vec![
            "No detection",
            "Single PSR detection",
            "Single SSR detection",
            "SSR + PSR detection",
            "Single Mode S All-Call detection",
            "Single Mode S Roll-Call detection",
            "Mode S All-Call + PSR",
            "Mode S Roll-Call + PSR",
        ]
    );
    let foes: Vec<&str> = (0..4).map(foe_fri_name).collect();
    assert_eq!(foes, vec!["No Mode 4 Interrogation", "Friendly Target", "Unknown Target", "No reply"]);
    let sensors: Vec<&str> = (0..4).map(type_of_sensor_name).collect();
    assert_eq!(sensors, vec!["Combined Track", "PSR Track", "SSR/Mode S Track", "Invalid"]);
    let climbs: Vec<&str> = (0..4).map(climb_desc_name).collect();
    assert_eq!(climbs, vec!["Maintaining", "Climbing", "Descending", "Unknown"]);
    let coms: Vec<&str> = (0..8).map(communications_capability_name).collect();
    assert_eq!(
        coms,
        vec![
            "No com",
            "Comm A and B",
            "Comm A,B and Uplink ELM",
            "Comm A,B and Uplink ELM and Downlink",
            "Level 5 Transponder Capability",
            "Not assigned",
            "Not assigned",
            "Not assigned",
        ]
    );
    let states: Vec<&str> = (0..8).map(flight_status_name).collect();
    assert_eq!(
        states,
        vec![
            "No alert, no SPI, airborne",
            "No alert, no SPI, on ground",
            "Alert, no SPI, airborne",
            "Alert, no SPI, on ground",
            "Alert, SPI, airborne or ground",
            "No alert, SPI, airborne or ground",
            "Not assigned",
            "Unknown",
        ]
    );
    let mops: Vec<&str> = (0..4).map(applicable_mops_doc_name).collect();
    assert_eq!(
        mops,
        vec!["RTCA DO-185", "RTCA DO-185A", "RTCA DO-185B", "Reserved For Future Versions"]
    );
    let sources: Vec<&str> = (0..4).map(target_alt_source_name).collect();
    assert_eq!(sources, vec!["Unknown", "Aircraft Altitude", "MCP/FCU", "FMS"]);
    assert_eq!((si_ii_name(false), si_ii_name(true)), ("SI", "II"));
    assert_eq!((acas_status_name(false), acas_status_name(true)), ("Failed or Standby", "Operational"));
    assert_eq!((ta_ra_name(false), ta_ra_name(true)), ("TA", "TA and RA"));
}

#[test]
fn tables_of_category_21() {
    let atps: Vec<&str> = (0..8).map(atp_name).collect();
    assert_eq!(
        atps,
        vec![
            "24-Bit ICAO address",
            "Duplicate address",
            "Surface vehicle address",
            "Anonymous address",
            "Reserved",
            "Reserved",
            "Reserved",
            "Reserved",
        ]
    );
    let arcs: Vec<&str> = (0..4).map(arc_name).collect();
    assert_eq!(arcs, vec!["25 ft", "100 ft", "Unknown", "invalid"]);
    assert_eq!((rc_name(false), rc_name(true)), ("Range Check Passed", "Range Check Failed"));
    assert_eq!(
        (rab_name(false), rab_name(true)),
        ("Report from ADS-B transceiver", "Report from field monitor")
    );
}

#[test]
fn absent_items_have_no_entry() {
    let rec = decode_cat48(48, &BitCursor::new(&[0x80, 0x07, 0x2A])).unwrap();
    let fields = project_cat48(&rec);
    assert_eq!(
        fields,
        vec![
            Field { name: "Category".to_string(), value: FieldValue::Number(48) },
            Field { name: "SAC".to_string(), value: FieldValue::Number(7) },
            Field { name: "SIC".to_string(), value: FieldValue::Number(42) },
        ]
    );
    let rec = decode_cat21(21, &BitCursor::new(&[0x00])).unwrap();
    assert_eq!(names(&project_cat21(&rec)), vec!["Category"]);
    assert_eq!(project_record(&Record::Cat21(rec)), project_cat21(&rec));
}

#[test]
fn projection_of_a_category_21_record() {
    // FRN 1, 2, 7, 9, 11, 12, 19, 21, 22, 29 and 48
    let mut body = vec![0b1100_0011, 0b0101_1001, 0b0000_1011, 0b1000_0001, 0b1000_0001, 1, 4];
    body.extend([0x14, 0x81]);
    body.extend([0b001_10_1_1_1, 0x40]);
    body.extend([0x10, 0, 0, 0, 0xF0, 0, 0, 0]);
    body.extend([0x00, 0xFA]);
    body.extend([0x34, 0xA0, 0xC9]);
    body.extend([0x1B, 0x2E, 0x50]);
    body.extend([0x02, 0x9C]);
    body.extend([0x05, 0x78]);
    body.extend([0x40, 0x00]);
    body.extend([0x04, 0x20, 0xF1, 0xCB, 0x38, 0x20]);
    body.extend([0x04, 0x80, 0x08, 0x54]);
    let rec = decode_cat21(21, &BitCursor::new(&body)).unwrap();
    let fields = project_cat21(&rec);
    assert_eq!(
        names(&fields),
        vec![
            "Category",
            "SAC",
            "SIC",
            "ATP Description",
            "ARC Description",
            "RC Description",
            "RAB Description",
            "GBS",
            "Latitude (deg)",
            "Longitude (deg)",
            "ICAO Address (hex)",
            "Time (s since midnight)",
            "Time String",
            "Mode-3/A Code",
            "Flight Level (FL)",
            "Altitude (ft)",
            "Altitude (m)",
            "Height (ft)",
            "Height (m)",
            "IAS (kt)",
            "Magnetic Heading (deg)",
            "Target Identification",
            "Barometric Pressure Setting",
            "Is_Static",
        ]
    );
    assert_eq!(find(&fields, "Category"), &FieldValue::Number(21));
    assert_eq!(find(&fields, "ATP Description"), &text("Duplicate address"));
    assert_eq!(find(&fields, "ARC Description"), &text("Unknown"));
    assert_eq!(find(&fields, "RC Description"), &text("Range Check Failed"));
    assert_eq!(find(&fields, "RAB Description"), &text("Report from field monitor"));
    assert_eq!(find(&fields, "GBS"), &FieldValue::Number(1));
    assert_eq!(find(&fields, "ICAO Address (hex)"), &text("34A0C9"));
    assert_eq!(
        find(&fields, "Time (s since midnight)"),
        &FieldValue::Scaled(Scaled { num: 0x1B2E50, den: 128 })
    );
    assert_eq!(find(&fields, "Time String"), &text("03:51:56.625"));
    assert_eq!(find(&fields, "Mode-3/A Code"), &text("1234"));
    assert_eq!(find(&fields, "Flight Level (FL)"), &FieldValue::Scaled(Scaled { num: 1400, den: 4 }));
    assert_eq!(find(&fields, "IAS (kt)"), &FieldValue::Scaled(Scaled { num: 250, den: 1 }));
    assert_eq!(
        find(&fields, "Magnetic Heading (deg)"),
        &FieldValue::Scaled(Scaled { num: 0x4000 * 360, den: 65536 })
    );
    assert_eq!(find(&fields, "Target Identification"), &text("ABC123"));
    assert_eq!(find(&fields, "Is_Static"), &FieldValue::Flag(false));
}

#[test]
fn projection_of_a_category_48_record() {
    // FRN 2, 3, 5, 7, 8, 9, 10, 13, 14 and 21
    let mut body = vec![0b0110_1011, 0b1110_0111, 0b0000_0010];
    body.extend([0x1B, 0x2E, 0x50]);
    body.extend([0b101_0_1_0_1_1, 0b1_0_0_0_0_01_0]);
    body.extend([0x0F, 0xFF]);
    body.extend([0b0100_0000, 9]);
    body.extend([0x00, 0xAB, 0x3F]);
    body.extend([0x04, 0x20, 0xF1, 0xCB, 0x38, 0x20]);
    body.push(2);
    body.extend([0xBE, 0x80, 0, 0, 0, 0, 0x03, 0x40]);
    body.extend([0, 0, 0, 0, 0, 0, 0, 0x60]);
    body.extend([0x03, 0xE8, 0x80, 0x00]);
    body.extend([0b0_10_0_0_10_0]);
    body.extend([0b001_001_1_0, 0b1_1_1_1_1_1_01]);
    let rec = decode_cat48(48, &BitCursor::new(&body)).unwrap();
    let fields = project_cat48(&rec);
    assert_eq!(
        names(&fields),
        vec![
            "Category",
            "Time (s since midnight)",
            "Time String",
            "Target Type",
            "Simulated",
            "RDP",
            "SPI",
            "RAB",
            "Test",
            "Extended Range",
            "XPulse",
            "Military Emergency",
            "Military Identification",
            "FOE/FRI",
            "Mode-3/A Code",
            "Flight Level (FL)",
            "Altitude (ft)",
            "Altitude (m)",
            "Number of Received Replies SSR",
            "Aircraft Address",
            "Target Identification",
            "Repetition",
            "Status MCP/FCU",
            "MCP/FCU Selected Altitude",
            "Status FMS",
            "FMS Selected Altitude",
            "Status Barometric Reference",
            "Barometric Pressure Setting",
            "Status MCP/FCU Mode",
            "VNAV Mode",
            "ALT Hold Mode",
            "Approach Mode",
            "Status Target Source",
            "Target Alt Source",
            "Status Magnetic Heading",
            "Magnetic Heading (deg) BDS",
            "Status IAS",
            "IAS (kt)",
            "Status Mach",
            "Mach",
            "Status Barometric Altitude Rate",
            "Barometric Altitude Rate",
            "Status Inertial Vertical Velocity",
            "Inertial Vertical Velocity",
            "Ground Speed (kts)",
            "Magnetic Heading (deg)",
            "ConfVTent",
            "Type of Sensor",
            "DOU",
            "Manoeuver detection Horizontal",
            "Climbing/Descending",
            "Communications Capability",
            "STAT",
            "SI/II",
            "Mode S Specific Service Capability",
            "Altitude Reporting Capability",
            "Aircraft Identification Capability",
            "ACAS Status",
            "Hybrid Surveillance",
            "TA/RA",
            "Applicable MOPS Doc",
        ]
    );
    assert_eq!(find(&fields, "Time String"), &text("03:51:56.625"));
    assert_eq!(find(&fields, "Target Type"), &text("Single Mode S Roll-Call detection"));
    assert_eq!(find(&fields, "RAB"), &FieldValue::Flag(true));
    assert_eq!(find(&fields, "Test"), &FieldValue::Flag(true));
    assert_eq!(find(&fields, "FOE/FRI"), &text("Friendly Target"));
    assert_eq!(find(&fields, "Mode-3/A Code"), &text("7777"));
    assert_eq!(find(&fields, "Flight Level (FL)"), &FieldValue::Scaled(Scaled { num: 0, den: 1 }));
    assert_eq!(find(&fields, "Number of Received Replies SSR"), &FieldValue::Number(9));
    assert_eq!(find(&fields, "Aircraft Address"), &text("00AB3F"));
    assert_eq!(find(&fields, "Target Identification"), &text("ABC123"));
    assert_eq!(find(&fields, "Repetition"), &FieldValue::Number(2));
    assert_eq!(
        find(&fields, "MCP/FCU Selected Altitude"),
        &FieldValue::Scaled(Scaled { num: 32_000, den: 1 })
    );
    assert_eq!(find(&fields, "Target Alt Source"), &text("FMS"));
    assert_eq!(find(&fields, "IAS (kt)"), &FieldValue::Scaled(Scaled { num: 0, den: 1 }));
    assert_eq!(
        find(&fields, "Ground Speed (kts)"),
        &FieldValue::Scaled(Scaled { num: 22_000, den: 100 })
    );
    assert_eq!(find(&fields, "Type of Sensor"), &text("SSR/Mode S Track"));
    assert_eq!(find(&fields, "Climbing/Descending"), &text("Descending"));
    assert_eq!(find(&fields, "Communications Capability"), &text("Comm A and B"));
    assert_eq!(find(&fields, "STAT"), &text("No alert, no SPI, on ground"));
    assert_eq!(find(&fields, "SI/II"), &text("II"));
    assert_eq!(find(&fields, "ACAS Status"), &text("Operational"));
    assert_eq!(find(&fields, "TA/RA"), &text("TA and RA"));
    assert_eq!(find(&fields, "Applicable MOPS Doc"), &text("RTCA DO-185A"));
}

#[test]
fn entries_are_appended_only_when_present() {
    let mut out = Vec::new();
    put_number(&mut out, "a", Some(-3));
    put_number(&mut out, "b", None);
    put_flag(&mut out, "c", Some(true));
    put_flag(&mut out, "d", None);
    put_scaled(&mut out, "e", Some(Scaled { num: 1, den: 2 }));
    put_scaled(&mut out, "f", None);
    put_text(&mut out, "g", Some("x".to_string()));
    put_text(&mut out, "h", None);
    assert_eq!(
        out,
        vec![
            Field { name: "a".to_string(), value: FieldValue::Number(-3) },
            Field { name: "c".to_string(), value: FieldValue::Flag(true) },
            Field { name: "e".to_string(), value: FieldValue::Scaled(Scaled { num: 1, den: 2 }) },
            Field { name: "g".to_string(), value: text("x") },
        ]
    );
}
