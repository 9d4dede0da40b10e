//! The names that the coded values of both categories are shown by.
//!
//! Each table gives a name to every code of its field; a code past the last
//! one listed gets the name of the last.

use vstd::prelude::*;

verus! {

/// The detection type of a category 48 target report descriptor.
pub open spec fn target_type_text(code: u8) -> Seq<char> {
    if code == 0 {
        "No detection"@
    } else if code == 1 {
        "Single PSR detection"@
    } else if code == 2 {
        "Single SSR detection"@
    } else if code == 3 {
        "SSR + PSR detection"@
    } else if code == 4 {
        "Single Mode S All-Call detection"@
    } else if code == 5 {
        "Single Mode S Roll-Call detection"@
    } else if code == 6 {
        "Mode S All-Call + PSR"@
    } else {
        "Mode S Roll-Call + PSR"@
    }
}

/// The detection type of a category 48 target report descriptor.
pub fn target_type_name(code: u8) -> (name: &'static str)
    ensures
        name@ == target_type_text(code),
{
    if code == 0 {
        "No detection"
    } else if code == 1 {
        "Single PSR detection"
    } else if code == 2 {
        "Single SSR detection"
    } else if code == 3 {
        "SSR + PSR detection"
    } else if code == 4 {
        "Single Mode S All-Call detection"
    } else if code == 5 {
        "Single Mode S Roll-Call detection"
    } else if code == 6 {
        "Mode S All-Call + PSR"
    } else {
        "Mode S Roll-Call + PSR"
    }
}

/// The Mode 4 friend-or-foe answer.
pub open spec fn foe_fri_text(code: u8) -> Seq<char> {
    if code == 0 {
        "No Mode 4 Interrogation"@
    } else if code == 1 {
        "Friendly Target"@
    } else if code == 2 {
        "Unknown Target"@
    } else {
        "No reply"@
    }
}

/// The Mode 4 friend-or-foe answer.
pub fn foe_fri_name(code: u8) -> (name: &'static str)
    ensures
        name@ == foe_fri_text(code),
{
    if code == 0 {
        "No Mode 4 Interrogation"
    } else if code == 1 {
        "Friendly Target"
    } else if code == 2 {
        "Unknown Target"
    } else {
        "No reply"
    }
}

/// The sensor type of a track status.
pub open spec fn type_of_sensor_text(code: u8) -> Seq<char> {
    if code == 0 {
        "Combined Track"@
    } else if code == 1 {
        "PSR Track"@
    } else if code == 2 {
        "SSR/Mode S Track"@
    } else {
        "Invalid"@
    }
}

/// The sensor type of a track status.
pub fn type_of_sensor_name(code: u8) -> (name: &'static str)
    ensures
        name@ == type_of_sensor_text(code),
{
    if code == 0 {
        "Combined Track"
    } else if code == 1 {
        "PSR Track"
    } else if code == 2 {
        "SSR/Mode S Track"
    } else {
        "Invalid"
    }
}

/// The climbing or descending mode of a track status.
pub open spec fn climb_desc_text(code: u8) -> Seq<char> {
    if code == 0 {
        "Maintaining"@
    } else if code == 1 {
        "Climbing"@
    } else if code == 2 {
        "Descending"@
    } else {
        "Unknown"@
    }
}

/// The climbing or descending mode of a track status.
pub fn climb_desc_name(code: u8) -> (name: &'static str)
    ensures
        name@ == climb_desc_text(code),
{
    if code == 0 {
        "Maintaining"
    } else if code == 1 {
        "Climbing"
    } else if code == 2 {
        "Descending"
    } else {
        "Unknown"
    }
}

/// The communications capability of the transponder.
pub open spec fn communications_capability_text(code: u8) -> Seq<char> {
    if code == 0 {
        "No com"@
    } else if code == 1 {
        "Comm A and B"@
    } else if code == 2 {
        "Comm A,B and Uplink ELM"@
    } else if code == 3 {
        "Comm A,B and Uplink ELM and Downlink"@
    } else if code == 4 {
        "Level 5 Transponder Capability"@
    } else {
        "Not assigned"@
    }
}

/// The communications capability of the transponder.
pub fn communications_capability_name(code: u8) -> (name: &'static str)
    ensures
        name@ == communications_capability_text(code),
{
    if code == 0 {
        "No com"
    } else if code == 1 {
        "Comm A and B"
    } else if code == 2 {
        "Comm A,B and Uplink ELM"
    } else if code == 3 {
        "Comm A,B and Uplink ELM and Downlink"
    } else if code == 4 {
        "Level 5 Transponder Capability"
    } else {
        "Not assigned"
    }
}

/// The flight status.
pub open spec fn flight_status_text(code: u8) -> Seq<char> {
    if code == 0 {
        "No alert, no SPI, airborne"@
    } else if code == 1 {
        "No alert, no SPI, on ground"@
    } else if code == 2 {
        "Alert, no SPI, airborne"@
    } else if code == 3 {
        "Alert, no SPI, on ground"@
    } else if code == 4 {
        "Alert, SPI, airborne or ground"@
    } else if code == 5 {
        "No alert, SPI, airborne or ground"@
    } else if code == 6 {
        "Not assigned"@
    } else {
        "Unknown"@
    }
}

/// The flight status.
pub fn flight_status_name(code: u8) -> (name: &'static str)
    ensures
        name@ == flight_status_text(code),
{
    if code == 0 {
        "No alert, no SPI, airborne"
    } else if code == 1 {
        "No alert, no SPI, on ground"
    } else if code == 2 {
        "Alert, no SPI, airborne"
    } else if code == 3 {
        "Alert, no SPI, on ground"
    } else if code == 4 {
        "Alert, SPI, airborne or ground"
    } else if code == 5 {
        "No alert, SPI, airborne or ground"
    } else if code == 6 {
        "Not assigned"
    } else {
        "Unknown"
    }
}

/// The MOPS document that the ACAS follows.
pub open spec fn applicable_mops_doc_text(code: u8) -> Seq<char> {
    if code == 0 {
        "RTCA DO-185"@
    } else if code == 1 {
        "RTCA DO-185A"@
    } else if code == 2 {
        "RTCA DO-185B"@
    } else {
        "Reserved For Future Versions"@
    }
}

/// The MOPS document that the ACAS follows.
pub fn applicable_mops_doc_name(code: u8) -> (name: &'static str)
    ensures
        name@ == applicable_mops_doc_text(code),
{
    if code == 0 {
        "RTCA DO-185"
    } else if code == 1 {
        "RTCA DO-185A"
    } else if code == 2 {
        "RTCA DO-185B"
    } else {
        "Reserved For Future Versions"
    }
}

/// The source of the target altitude in BDS 4,0.
pub open spec fn target_alt_source_text(code: u8) -> Seq<char> {
    if code == 0 {
        "Unknown"@
    } else if code == 1 {
        "Aircraft Altitude"@
    } else if code == 2 {
        "MCP/FCU"@
    } else {
        "FMS"@
    }
}

/// The source of the target altitude in BDS 4,0.
pub fn target_alt_source_name(code: u8) -> (name: &'static str)
    ensures
        name@ == target_alt_source_text(code),
{
    if code == 0 {
        "Unknown"
    } else if code == 1 {
        "Aircraft Altitude"
    } else if code == 2 {
        "MCP/FCU"
    } else {
        "FMS"
    }
}

/// The address type of a category 21 target report descriptor.
pub open spec fn atp_text(code: u8) -> Seq<char> {
    if code == 0 {
        "24-Bit ICAO address"@
    } else if code == 1 {
        "Duplicate address"@
    } else if code == 2 {
        "Surface vehicle address"@
    } else if code == 3 {
        "Anonymous address"@
    } else {
        "Reserved"@
    }
}

/// The address type of a category 21 target report descriptor.
pub fn atp_name(code: u8) -> (name: &'static str)
    ensures
        name@ == atp_text(code),
{
    if code == 0 {
        "24-Bit ICAO address"
    } else if code == 1 {
        "Duplicate address"
    } else if code == 2 {
        "Surface vehicle address"
    } else if code == 3 {
        "Anonymous address"
    } else {
        "Reserved"
    }
}

/// The altitude reporting capability of a category 21 target report descriptor.
pub open spec fn arc_text(code: u8) -> Seq<char> {
    if code == 0 {
        "25 ft"@
    } else if code == 1 {
        "100 ft"@
    } else if code == 2 {
        "Unknown"@
    } else {
        "invalid"@
    }
}

/// The altitude reporting capability of a category 21 target report descriptor.
pub fn arc_name(code: u8) -> (name: &'static str)
    ensures
        name@ == arc_text(code),
{
    if code == 0 {
        "25 ft"
    } else if code == 1 {
        "100 ft"
    } else if code == 2 {
        "Unknown"
    } else {
        "invalid"
    }
}

/// The kind of interrogator code: II when the bit is set, SI otherwise.
pub open spec fn si_ii_text(set: bool) -> Seq<char> {
    if set {
        "II"@
    } else {
        "SI"@
    }
}

/// The kind of interrogator code: II when the bit is set, SI otherwise.
pub fn si_ii_name(set: bool) -> (name: &'static str)
    ensures
        name@ == si_ii_text(set),
{
    if set {
        "II"
    } else {
        "SI"
    }
}

/// The ACAS status.
pub open spec fn acas_status_text(set: bool) -> Seq<char> {
    if set {
        "Operational"@
    } else {
        "Failed or Standby"@
    }
}

/// The ACAS status.
pub fn acas_status_name(set: bool) -> (name: &'static str)
    ensures
        name@ == acas_status_text(set),
{
    if set {
        "Operational"
    } else {
        "Failed or Standby"
    }
}

/// The ACAS advisories.
pub open spec fn ta_ra_text(set: bool) -> Seq<char> {
    if set {
        "TA and RA"@
    } else {
        "TA"@
    }
}

/// The ACAS advisories.
pub fn ta_ra_name(set: bool) -> (name: &'static str)
    ensures
        name@ == ta_ra_text(set),
{
    if set {
        "TA and RA"
    } else {
        "TA"
    }
}

/// The range check of a category 21 target report descriptor.
pub open spec fn rc_text(set: bool) -> Seq<char> {
    if set {
        "Range Check Failed"@
    } else {
        "Range Check Passed"@
    }
}

/// The range check of a category 21 target report descriptor.
pub fn rc_name(set: bool) -> (name: &'static str)
    ensures
        name@ == rc_text(set),
{
    if set {
        "Range Check Failed"
    } else {
        "Range Check Passed"
    }
}

/// The report type of a category 21 target report descriptor.
pub open spec fn rab_text(set: bool) -> Seq<char> {
    if set {
        "Report from field monitor"@
    } else {
        "Report from ADS-B transceiver"@
    }
}

/// The report type of a category 21 target report descriptor.
pub fn rab_name(set: bool) -> (name: &'static str)
    ensures
        name@ == rab_text(set),
{
    if set {
        "Report from field monitor"
    } else {
        "Report from ADS-B transceiver"
    }
}

/// Whether `text` ends with `tail`.
pub open spec fn ends_with(text: Seq<char>, tail: Seq<char>) -> bool {
    text.len() >= tail.len() && text.subrange(text.len() - tail.len(), text.len() as int) == tail
}

/// The flight states whose name ends with "on ground" are states 1 and 3.
pub proof fn lemma_on_ground_states(code: u8)
    ensures
        ends_with(flight_status_text(code), "on ground"@) <==> (code == 1 || code == 3),
{
    reveal_strlit("on ground");
    reveal_strlit("No alert, no SPI, airborne");
    reveal_strlit("No alert, no SPI, on ground");
    reveal_strlit("Alert, no SPI, airborne");
    reveal_strlit("Alert, no SPI, on ground");
    reveal_strlit("Alert, SPI, airborne or ground");
    reveal_strlit("No alert, SPI, airborne or ground");
    reveal_strlit("Not assigned");
    reveal_strlit("Unknown");
    let text = flight_status_text(code);
    let tail = "on ground"@;
    if code == 1 || code == 3 {
        assert(text.subrange(text.len() - 9, text.len() as int) =~= tail);
    } else if text.len() >= 9 {
        assert(text.subrange(text.len() - 9, text.len() as int)[0] == text[text.len() - 9]);
        assert(tail[0] == 'o');
        assert(text.subrange(text.len() - 9, text.len() as int)[1] == text[text.len() - 8]);
        assert(tail[1] == 'n');
    }
}

} // verus!
