//! The projection of a record onto named entries.
//!
//! A record is shown as a list of entries, each a name and a value. The
//! names are the labels by which the consumers of the decoded data know the
//! fields; both categories share them. An item that the record does not
//! carry has no entry. A nested group gives its entries in place, so a name
//! can occur twice in a list: a consumer that keeps one value per name keeps
//! the later.

use crate::bds::{BDS40, BDS50, BDS60};
use crate::cat21::Cat21;
use crate::cat48::{
    CalcTrackVelPolar, Cat48, ComAcas, ModeSMBData, RadarPlotCharacteristics, TargetDesc,
    TrackStatus,
};
use crate::names::{
    acas_status_name, acas_status_text, applicable_mops_doc_name, applicable_mops_doc_text,
    arc_name, arc_text, atp_name, atp_text, climb_desc_name, climb_desc_text,
    communications_capability_name, communications_capability_text, flight_status_name,
    flight_status_text, foe_fri_name, foe_fri_text, rab_name, rab_text, rc_name, rc_text,
    si_ii_name, si_ii_text, ta_ra_name, ta_ra_text, target_alt_source_name,
    target_alt_source_text, target_type_name, target_type_text, type_of_sensor_name,
    type_of_sensor_text,
};
use crate::stream::Record;
use crate::text::{
    address_string, address_text, ident_string, ident_text, mode3a_string, mode3a_text,
    time_string, time_text,
};
use crate::units::{ratio, Scaled};
use vstd::prelude::*;

verus! {

/// The value of an entry.
#[derive(Clone, Debug, PartialEq, Eq)]
pub enum FieldValue {
    /// A whole number that is a count or a code.
    Number(i64),
    /// An exact quantity.
    Scaled(Scaled),
    Flag(bool),
    Text(String),
}

/// An entry of a projection: the name of a field and its value.
#[derive(Clone, Debug, PartialEq, Eq)]
pub struct Field {
    pub name: String,
    pub value: FieldValue,
}

/// What a [`FieldValue`] holds.
pub enum ValueView {
    Number(int),
    Scaled(Scaled),
    Flag(bool),
    Text(Seq<char>),
}

/// What a [`Field`] holds.
pub struct FieldView {
    pub name: Seq<char>,
    pub value: ValueView,
}

impl View for FieldValue {
    type V = ValueView;

    open spec fn view(&self) -> ValueView {
        match *self {
            FieldValue::Number(n) => ValueView::Number(n as int),
            FieldValue::Scaled(s) => ValueView::Scaled(s),
            FieldValue::Flag(b) => ValueView::Flag(b),
            FieldValue::Text(t) => ValueView::Text(t@),
        }
    }
}

impl View for Field {
    type V = FieldView;

    open spec fn view(&self) -> FieldView {
        FieldView { name: self.name@, value: self.value@ }
    }
}

/// What a list of entries holds.
pub open spec fn views(fields: Seq<Field>) -> Seq<FieldView> {
    fields.map_values(|f: Field| f@)
}

/// `acc` with an entry of the given name and value when there is a value.
pub open spec fn with_entry(acc: Seq<FieldView>, name: Seq<char>, value: Option<ValueView>) -> Seq<
    FieldView,
> {
    match value {
        Some(v) => acc.push(FieldView { name, value: v }),
        None => acc,
    }
}

/// `acc` with a number under `name`, when there is one.
pub open spec fn with_number(acc: Seq<FieldView>, name: Seq<char>, value: Option<int>) -> Seq<
    FieldView,
> {
    with_entry(
        acc,
        name,
        match value {
            Some(n) => Some(ValueView::Number(n)),
            None => None,
        },
    )
}

/// `acc` with a quantity under `name`, when there is one.
pub open spec fn with_scaled(acc: Seq<FieldView>, name: Seq<char>, value: Option<Scaled>) -> Seq<
    FieldView,
> {
    with_entry(
        acc,
        name,
        match value {
            Some(s) => Some(ValueView::Scaled(s)),
            None => None,
        },
    )
}

/// `acc` with a flag under `name`, when there is one.
pub open spec fn with_flag(acc: Seq<FieldView>, name: Seq<char>, value: Option<bool>) -> Seq<
    FieldView,
> {
    with_entry(
        acc,
        name,
        match value {
            Some(b) => Some(ValueView::Flag(b)),
            None => None,
        },
    )
}

/// `acc` with a text under `name`, when there is one.
pub open spec fn with_text(acc: Seq<FieldView>, name: Seq<char>, value: Option<Seq<char>>) -> Seq<
    FieldView,
> {
    with_entry(
        acc,
        name,
        match value {
            Some(t) => Some(ValueView::Text(t)),
            None => None,
        },
    )
}

/// The text of a time of day counted in 1/128 s.
pub open spec fn time_text_of(raw: u32) -> Seq<char> {
    time_text(raw as int)
}

/// The text of a Mode-3/A code.
pub open spec fn mode3a_text_of(code: u16) -> Seq<char> {
    mode3a_text(code as int)
}

/// The text of an address.
pub open spec fn address_text_of(address: u32) -> Seq<char> {
    address_text(address as int)
}

/// The text of an identification.
pub open spec fn ident_text_of(raw: u64) -> Seq<char> {
    ident_text(raw as int)
}

/// Appends an entry.
fn put(out: &mut Vec<Field>, name: &str, value: FieldValue)
    ensures
        views(final(out)@) == views(old(out)@).push(FieldView { name: name@, value: value@ }),
{
    out.push(Field { name: name.to_owned(), value });
    assert(views(out@) =~= views(old(out)@).push(FieldView { name: name@, value: value@ }));
}

/// Appends a number under `name`, when there is one.
pub fn put_number(out: &mut Vec<Field>, name: &str, value: Option<i64>)
    ensures
        views(final(out)@) == with_number(
            views(old(out)@),
            name@,
            match value {
                Some(n) => Some(n as int),
                None => None,
            },
        ),
{
    match value {
        Some(n) => {
            put(out, name, FieldValue::Number(n));
        },
        None => {},
    }
}

/// Appends a quantity under `name`, when there is one.
pub fn put_scaled(out: &mut Vec<Field>, name: &str, value: Option<Scaled>)
    ensures
        views(final(out)@) == with_scaled(views(old(out)@), name@, value),
{
    match value {
        Some(s) => {
            put(out, name, FieldValue::Scaled(s));
        },
        None => {},
    }
}

/// Appends a flag under `name`, when there is one.
pub fn put_flag(out: &mut Vec<Field>, name: &str, value: Option<bool>)
    ensures
        views(final(out)@) == with_flag(views(old(out)@), name@, value),
{
    match value {
        Some(b) => {
            put(out, name, FieldValue::Flag(b));
        },
        None => {},
    }
}

/// Appends a text under `name`, when there is one.
pub fn put_text(out: &mut Vec<Field>, name: &str, value: Option<String>)
    ensures
        views(final(out)@) == with_text(
            views(old(out)@),
            name@,
            match value {
                Some(t) => Some(t@),
                None => None,
            },
        ),
{
    match value {
        Some(t) => {
            put(out, name, FieldValue::Text(t));
        },
        None => {},
    }
}

/// The entries of a target report descriptor. They are put after `acc`, in the
/// order of the record.
pub open spec fn target_desc_projection(acc: Seq<FieldView>, d: TargetDesc) -> Seq<FieldView> {
    let acc = with_text(acc, "Target Type"@, Some(target_type_text(d.target_type)));
    let acc = with_flag(acc, "Simulated"@, Some(d.simulated));
    let acc = with_flag(acc, "RDP"@, Some(d.rdp));
    let acc = with_flag(acc, "SPI"@, Some(d.spi));
    let acc = with_flag(acc, "RAB"@, Some(d.rab));
    let acc = with_flag(acc, "Test"@, d.test);
    let acc = with_flag(acc, "Extended Range"@, d.extended_range);
    let acc = with_flag(acc, "XPulse"@, d.xpulse);
    let acc = with_flag(acc, "Military Emergency"@, d.military_emergency);
    let acc = with_flag(acc, "Military Identification"@, d.military_identification);
    let acc = with_text(
        acc,
        "FOE/FRI"@,
        match d.foe_fri {
            Some(v) => Some(foe_fri_text(v)),
            None => None,
        },
    );
    let acc = with_flag(acc, "ADS-B Element Populated"@, d.ads_b_element_populated);
    let acc = with_flag(acc, "ADS-B Value"@, d.ads_b_value);
    let acc = with_flag(acc, "SCN Element Populated"@, d.scn_element_populated);
    let acc = with_flag(acc, "SCN Value"@, d.scn_value);
    let acc = with_flag(acc, "PAI Element Populated"@, d.pai_element_populated);
    let acc = with_flag(acc, "PAI Value"@, d.pai_value);
    acc
}

/// Appends the entries of a target report descriptor.
pub fn project_target_desc(out: &mut Vec<Field>, d: &TargetDesc)
    ensures
        views(final(out)@) == target_desc_projection(views(old(out)@), *d),
{
    put_text(out, "Target Type", Some(target_type_name(d.target_type).to_owned()));
    put_flag(out, "Simulated", Some(d.simulated));
    put_flag(out, "RDP", Some(d.rdp));
    put_flag(out, "SPI", Some(d.spi));
    put_flag(out, "RAB", Some(d.rab));
    put_flag(out, "Test", d.test);
    put_flag(out, "Extended Range", d.extended_range);
    put_flag(out, "XPulse", d.xpulse);
    put_flag(out, "Military Emergency", d.military_emergency);
    put_flag(out, "Military Identification", d.military_identification);
    put_text(
        out,
        "FOE/FRI",
        match d.foe_fri {
            Some(v) => Some(foe_fri_name(v).to_owned()),
            None => None,
        },
    );
    put_flag(out, "ADS-B Element Populated", d.ads_b_element_populated);
    put_flag(out, "ADS-B Value", d.ads_b_value);
    put_flag(out, "SCN Element Populated", d.scn_element_populated);
    put_flag(out, "SCN Value", d.scn_value);
    put_flag(out, "PAI Element Populated", d.pai_element_populated);
    put_flag(out, "PAI Value", d.pai_value);
}

/// The entries of the radar plot characteristics. They are put after `acc`, in the
/// order of the record.
pub open spec fn radar_plot_projection(acc: Seq<FieldView>, p: RadarPlotCharacteristics) -> Seq<
    FieldView,
> {
    let acc = with_scaled(acc, "SSR Plot Runlength"@, p.ssr_plot_runlength);
    let acc = with_number(
        acc,
        "Number of Received Replies SSR"@,
        match p.number_of_received_replies_ssr {
            Some(v) => Some(v as int),
            None => None,
        },
    );
    let acc = with_number(
        acc,
        "Amplitude of (M)SSR Reply"@,
        match p.amplitude_of_mssr_reply {
            Some(v) => Some(v as int),
            None => None,
        },
    );
    let acc = with_scaled(acc, "Primary Plot Runlength (deg)"@, p.primary_plot_runlength);
    let acc = with_number(
        acc,
        "Amplitude of Primary Plot (dBm)"@,
        match p.amplitude_of_primary_plot {
            Some(v) => Some(v as int),
            None => None,
        },
    );
    let acc = with_scaled(acc, "Range (PSR-SSR)"@, p.range_psr_ssr);
    let acc = with_scaled(acc, "Azimuth (PSR-SSR)"@, p.azimuth_psr_ssr);
    acc
}

/// Appends the entries of the radar plot characteristics.
pub fn project_radar_plot(out: &mut Vec<Field>, p: &RadarPlotCharacteristics)
    ensures
        views(final(out)@) == radar_plot_projection(views(old(out)@), *p),
{
    put_scaled(out, "SSR Plot Runlength", p.ssr_plot_runlength);
    put_number(
        out,
        "Number of Received Replies SSR",
        match p.number_of_received_replies_ssr {
            Some(v) => Some(v as i64),
            None => None,
        },
    );
    put_number(
        out,
        "Amplitude of (M)SSR Reply",
        match p.amplitude_of_mssr_reply {
            Some(v) => Some(v as i64),
            None => None,
        },
    );
    put_scaled(out, "Primary Plot Runlength (deg)", p.primary_plot_runlength);
    put_number(
        out,
        "Amplitude of Primary Plot (dBm)",
        match p.amplitude_of_primary_plot {
            Some(v) => Some(v as i64),
            None => None,
        },
    );
    put_scaled(out, "Range (PSR-SSR)", p.range_psr_ssr);
    put_scaled(out, "Azimuth (PSR-SSR)", p.azimuth_psr_ssr);
}

/// The entries of a BDS 4,0 register. They are put after `acc`, in the
/// order of the record.
pub open spec fn bds40_projection(acc: Seq<FieldView>, r: BDS40) -> Seq<FieldView> {
    let acc = with_flag(acc, "Status MCP/FCU"@, Some(r.status_mcp));
    let acc = with_scaled(acc, "MCP/FCU Selected Altitude"@, Some(ratio(r.mcp_alt as int, 1)));
    let acc = with_flag(acc, "Status FMS"@, Some(r.status_fms));
    let acc = with_scaled(acc, "FMS Selected Altitude"@, Some(ratio(r.fms_alt as int, 1)));
    let acc = with_flag(acc, "Status Barometric Reference"@, Some(r.status_bar));
    let acc = with_scaled(acc, "Barometric Pressure Setting"@, Some(r.bar_press));
    let acc = with_flag(acc, "Status MCP/FCU Mode"@, Some(r.status_mcp_mode));
    let acc = with_flag(acc, "VNAV Mode"@, Some(r.vnav));
    let acc = with_flag(acc, "ALT Hold Mode"@, Some(r.alt_hold));
    let acc = with_flag(acc, "Approach Mode"@, Some(r.approach));
    let acc = with_flag(acc, "Status Target Source"@, Some(r.status_target));
    let acc = with_text(
        acc,
        "Target Alt Source"@,
        Some(target_alt_source_text(r.target_alt_source)),
    );
    acc
}

/// Appends the entries of a BDS 4,0 register.
pub fn project_bds40(out: &mut Vec<Field>, r: &BDS40)
    ensures
        views(final(out)@) == bds40_projection(views(old(out)@), *r),
{
    put_flag(out, "Status MCP/FCU", Some(r.status_mcp));
    put_scaled(out, "MCP/FCU Selected Altitude", Some(Scaled { num: r.mcp_alt as i64, den: 1 }));
    put_flag(out, "Status FMS", Some(r.status_fms));
    put_scaled(out, "FMS Selected Altitude", Some(Scaled { num: r.fms_alt as i64, den: 1 }));
    put_flag(out, "Status Barometric Reference", Some(r.status_bar));
    put_scaled(out, "Barometric Pressure Setting", Some(r.bar_press));
    put_flag(out, "Status MCP/FCU Mode", Some(r.status_mcp_mode));
    put_flag(out, "VNAV Mode", Some(r.vnav));
    put_flag(out, "ALT Hold Mode", Some(r.alt_hold));
    put_flag(out, "Approach Mode", Some(r.approach));
    put_flag(out, "Status Target Source", Some(r.status_target));
    put_text(
        out,
        "Target Alt Source",
        Some(target_alt_source_name(r.target_alt_source).to_owned()),
    );
}

/// The entries of a BDS 5,0 register. They are put after `acc`, in the
/// order of the record.
pub open spec fn bds50_projection(acc: Seq<FieldView>, r: BDS50) -> Seq<FieldView> {
    let acc = with_flag(acc, "Status Roll Angle"@, Some(r.status_roll));
    let acc = with_scaled(acc, "Roll Angle"@, Some(r.roll_angle));
    let acc = with_flag(acc, "Status Track Angle"@, Some(r.status_track));
    let acc = with_scaled(acc, "Track Angle"@, Some(r.track_angle));
    let acc = with_flag(acc, "Status Ground Speed"@, Some(r.status_gs));
    let acc = with_scaled(acc, "Ground Speed (kts)"@, Some(ratio(r.gs as int, 1)));
    let acc = with_flag(acc, "Status Track Angle Rate"@, Some(r.status_ta_rate));
    let acc = with_scaled(acc, "Track Angle Rate"@, Some(r.ta_rate));
    let acc = with_flag(acc, "Status TAS"@, Some(r.status_tas));
    let acc = with_scaled(acc, "TAS"@, Some(ratio(r.tas as int, 1)));
    acc
}

/// Appends the entries of a BDS 5,0 register.
pub fn project_bds50(out: &mut Vec<Field>, r: &BDS50)
    ensures
        views(final(out)@) == bds50_projection(views(old(out)@), *r),
{
    put_flag(out, "Status Roll Angle", Some(r.status_roll));
    put_scaled(out, "Roll Angle", Some(r.roll_angle));
    put_flag(out, "Status Track Angle", Some(r.status_track));
    put_scaled(out, "Track Angle", Some(r.track_angle));
    put_flag(out, "Status Ground Speed", Some(r.status_gs));
    put_scaled(out, "Ground Speed (kts)", Some(Scaled { num: r.gs as i64, den: 1 }));
    put_flag(out, "Status Track Angle Rate", Some(r.status_ta_rate));
    put_scaled(out, "Track Angle Rate", Some(r.ta_rate));
    put_flag(out, "Status TAS", Some(r.status_tas));
    put_scaled(out, "TAS", Some(Scaled { num: r.tas as i64, den: 1 }));
}

/// The entries of a BDS 6,0 register. They are put after `acc`, in the
/// order of the record.
pub open spec fn bds60_projection(acc: Seq<FieldView>, r: BDS60) -> Seq<FieldView> {
    let acc = with_flag(acc, "Status Magnetic Heading"@, Some(r.status_mag_h));
    let acc = with_scaled(acc, "Magnetic Heading (deg) BDS"@, Some(r.mag_h));
    let acc = with_flag(acc, "Status IAS"@, Some(r.status_ias));
    let acc = with_scaled(acc, "IAS (kt)"@, Some(ratio(r.ias as int, 1)));
    let acc = with_flag(acc, "Status Mach"@, Some(r.status_mach));
    let acc = with_scaled(acc, "Mach"@, Some(r.mach));
    let acc = with_flag(acc, "Status Barometric Altitude Rate"@, Some(r.status_bar_rate));
    let acc = with_scaled(acc, "Barometric Altitude Rate"@, Some(ratio(r.bar_rate as int, 1)));
    let acc = with_flag(acc, "Status Inertial Vertical Velocity"@, Some(r.status_inert_vv));
    let acc = with_scaled(acc, "Inertial Vertical Velocity"@, Some(ratio(r.inert_vv as int, 1)));
    acc
}

/// Appends the entries of a BDS 6,0 register.
pub fn project_bds60(out: &mut Vec<Field>, r: &BDS60)
    ensures
        views(final(out)@) == bds60_projection(views(old(out)@), *r),
{
    put_flag(out, "Status Magnetic Heading", Some(r.status_mag_h));
    put_scaled(out, "Magnetic Heading (deg) BDS", Some(r.mag_h));
    put_flag(out, "Status IAS", Some(r.status_ias));
    put_scaled(out, "IAS (kt)", Some(Scaled { num: r.ias as i64, den: 1 }));
    put_flag(out, "Status Mach", Some(r.status_mach));
    put_scaled(out, "Mach", Some(r.mach));
    put_flag(out, "Status Barometric Altitude Rate", Some(r.status_bar_rate));
    put_scaled(out, "Barometric Altitude Rate", Some(Scaled { num: r.bar_rate as i64, den: 1 }));
    put_flag(out, "Status Inertial Vertical Velocity", Some(r.status_inert_vv));
    put_scaled(out, "Inertial Vertical Velocity", Some(Scaled { num: r.inert_vv as i64, den: 1 }));
}

/// The entries of the Mode S MB data. They are put after `acc`, in the
/// order of the record.
pub open spec fn mode_s_mb_projection(acc: Seq<FieldView>, m: ModeSMBData) -> Seq<FieldView> {
    let acc = with_number(acc, "Repetition"@, Some(m.repetition as int));
    let acc = match m.bds_4_0 {
        Some(part) => bds40_projection(acc, part),
        None => acc,
    };
    let acc = match m.bds_5_0 {
        Some(part) => bds50_projection(acc, part),
        None => acc,
    };
    let acc = match m.bds_6_0 {
        Some(part) => bds60_projection(acc, part),
        None => acc,
    };
    acc
}

/// Appends the entries of the Mode S MB data.
pub fn project_mode_s_mb(out: &mut Vec<Field>, m: &ModeSMBData)
    ensures
        views(final(out)@) == mode_s_mb_projection(views(old(out)@), *m),
{
    put_number(out, "Repetition", Some(m.repetition as i64));
    match m.bds_4_0 {
        Some(part) => {
            project_bds40(out, &part);
        },
        None => {},
    }
    match m.bds_5_0 {
        Some(part) => {
            project_bds50(out, &part);
        },
        None => {},
    }
    match m.bds_6_0 {
        Some(part) => {
            project_bds60(out, &part);
        },
        None => {},
    }
}

/// The entries of the calculated track velocity. They are put after `acc`, in the
/// order of the record.
pub open spec fn velocity_projection(acc: Seq<FieldView>, v: CalcTrackVelPolar) -> Seq<FieldView> {
    let acc = with_scaled(acc, "Ground Speed (kts)"@, Some(v.groundspeed));
    let acc = with_scaled(acc, "Magnetic Heading (deg)"@, Some(v.heading));
    acc
}

/// Appends the entries of the calculated track velocity.
pub fn project_velocity(out: &mut Vec<Field>, v: &CalcTrackVelPolar)
    ensures
        views(final(out)@) == velocity_projection(views(old(out)@), *v),
{
    put_scaled(out, "Ground Speed (kts)", Some(v.groundspeed));
    put_scaled(out, "Magnetic Heading (deg)", Some(v.heading));
}

/// The entries of the track status. They are put after `acc`, in the
/// order of the record.
pub open spec fn track_status_projection(acc: Seq<FieldView>, t: TrackStatus) -> Seq<FieldView> {
    let acc = with_flag(acc, "ConfVTent"@, Some(t.conf_vtent));
    let acc = with_text(acc, "Type of Sensor"@, Some(type_of_sensor_text(t.type_of_sensor)));
    let acc = with_flag(acc, "DOU"@, Some(t.dou));
    let acc = with_flag(acc, "Manoeuver detection Horizontal"@, Some(t.man_h));
    let acc = with_text(acc, "Climbing/Descending"@, Some(climb_desc_text(t.climb_desc)));
    let acc = with_flag(acc, "End of Track"@, t.end_of_track);
    let acc = with_flag(acc, "Ghost"@, t.ghost_track);
    let acc = with_flag(acc, "SUP"@, t.sup);
    let acc = with_flag(acc, "TCC"@, t.tcc);
    acc
}

/// Appends the entries of the track status.
pub fn project_track_status(out: &mut Vec<Field>, t: &TrackStatus)
    ensures
        views(final(out)@) == track_status_projection(views(old(out)@), *t),
{
    put_flag(out, "ConfVTent", Some(t.conf_vtent));
    put_text(out, "Type of Sensor", Some(type_of_sensor_name(t.type_of_sensor).to_owned()));
    put_flag(out, "DOU", Some(t.dou));
    put_flag(out, "Manoeuver detection Horizontal", Some(t.man_h));
    put_text(out, "Climbing/Descending", Some(climb_desc_name(t.climb_desc).to_owned()));
    put_flag(out, "End of Track", t.end_of_track);
    put_flag(out, "Ghost", t.ghost_track);
    put_flag(out, "SUP", t.sup);
    put_flag(out, "TCC", t.tcc);
}

/// The entries of the capability and flight status. They are put after `acc`, in the
/// order of the record.
pub open spec fn com_acas_projection(acc: Seq<FieldView>, c: ComAcas) -> Seq<FieldView> {
    let acc = with_text(
        acc,
        "Communications Capability"@,
        Some(communications_capability_text(c.communications_capability)),
    );
    let acc = with_text(acc, "STAT"@, Some(flight_status_text(c.flight_status)));
    let acc = with_text(acc, "SI/II"@, Some(si_ii_text(c.si_ii)));
    let acc = with_flag(
        acc,
        "Mode S Specific Service Capability"@,
        Some(c.mode_s_specific_service_capability),
    );
    let acc = with_flag(
        acc,
        "Altitude Reporting Capability"@,
        Some(c.altitude_reporting_capability),
    );
    let acc = with_flag(
        acc,
        "Aircraft Identification Capability"@,
        Some(c.aircraft_identification_capability),
    );
    let acc = with_text(acc, "ACAS Status"@, Some(acas_status_text(c.acas_status)));
    let acc = with_flag(acc, "Hybrid Surveillance"@, Some(c.hybrid_surveillance));
    let acc = with_text(acc, "TA/RA"@, Some(ta_ra_text(c.ta_ra)));
    let acc = with_text(
        acc,
        "Applicable MOPS Doc"@,
        Some(applicable_mops_doc_text(c.applicable_mops_doc)),
    );
    acc
}

/// Appends the entries of the capability and flight status.
pub fn project_com_acas(out: &mut Vec<Field>, c: &ComAcas)
    ensures
        views(final(out)@) == com_acas_projection(views(old(out)@), *c),
{
    put_text(
        out,
        "Communications Capability",
        Some(communications_capability_name(c.communications_capability).to_owned()),
    );
    put_text(out, "STAT", Some(flight_status_name(c.flight_status).to_owned()));
    put_text(out, "SI/II", Some(si_ii_name(c.si_ii).to_owned()));
    put_flag(
        out,
        "Mode S Specific Service Capability",
        Some(c.mode_s_specific_service_capability),
    );
    put_flag(out, "Altitude Reporting Capability", Some(c.altitude_reporting_capability));
    put_flag(
        out,
        "Aircraft Identification Capability",
        Some(c.aircraft_identification_capability),
    );
    put_text(out, "ACAS Status", Some(acas_status_name(c.acas_status).to_owned()));
    put_flag(out, "Hybrid Surveillance", Some(c.hybrid_surveillance));
    put_text(out, "TA/RA", Some(ta_ra_name(c.ta_ra).to_owned()));
    put_text(
        out,
        "Applicable MOPS Doc",
        Some(applicable_mops_doc_name(c.applicable_mops_doc).to_owned()),
    );
}

/// The projection of a category 48 record: its entries by name, in the order
/// of the record, the absent ones left out.
pub open spec fn cat48_projection(rec: Cat48) -> Seq<FieldView> {
    let acc = Seq::<FieldView>::empty();
    let acc = with_number(acc, "Category"@, Some(rec.category as int));
    let acc = with_number(
        acc,
        "SAC"@,
        match rec.sac {
            Some(v) => Some(v as int),
            None => None,
        },
    );
    let acc = with_number(
        acc,
        "SIC"@,
        match rec.sic {
            Some(v) => Some(v as int),
            None => None,
        },
    );
    let acc = with_scaled(
        acc,
        "Time (s since midnight)"@,
        match rec.time_of_day {
            Some(v) => Some(ratio(v as int, 128)),
            None => None,
        },
    );
    let acc = with_text(
        acc,
        "Time String"@,
        match rec.time_of_day {
            Some(v) => Some(time_text_of(v)),
            None => None,
        },
    );
    let acc = match rec.target_desc {
        Some(part) => target_desc_projection(acc, part),
        None => acc,
    };
    let acc = with_scaled(acc, "Range (NM)"@, rec.range_nm);
    let acc = with_scaled(acc, "Range (m)"@, rec.range_m);
    let acc = with_scaled(acc, "Theta (deg)"@, rec.theta);
    let acc = with_text(
        acc,
        "Mode-3/A Code"@,
        match rec.mode3a_code {
            Some(v) => Some(mode3a_text_of(v)),
            None => None,
        },
    );
    let acc = with_scaled(acc, "Flight Level (FL)"@, rec.flight_level);
    let acc = with_scaled(acc, "Altitude (ft)"@, rec.altitude_ft);
    let acc = with_scaled(acc, "Altitude (m)"@, rec.altitude_m);
    let acc = match rec.radar_plot_characteristics {
        Some(part) => radar_plot_projection(acc, part),
        None => acc,
    };
    let acc = with_text(
        acc,
        "Aircraft Address"@,
        match rec.aircraft_address {
            Some(v) => Some(address_text_of(v)),
            None => None,
        },
    );
    let acc = with_text(
        acc,
        "Target Identification"@,
        match rec.target_identification {
            Some(v) => Some(ident_text_of(v)),
            None => None,
        },
    );
    let acc = match rec.mode_s_mb_data {
        Some(part) => mode_s_mb_projection(acc, part),
        None => acc,
    };
    let acc = with_number(
        acc,
        "Track Number"@,
        match rec.track_number {
            Some(v) => Some(v as int),
            None => None,
        },
    );
    let acc = match rec.calc_track_vel_polar {
        Some(part) => velocity_projection(acc, part),
        None => acc,
    };
    let acc = match rec.track_status {
        Some(part) => track_status_projection(acc, part),
        None => acc,
    };
    let acc = match rec.com_acas {
        Some(part) => com_acas_projection(acc, part),
        None => acc,
    };
    acc
}

/// Projects a category 48 record onto its named entries.
pub fn project_cat48(rec: &Cat48) -> (fields: Vec<Field>)
    ensures
        views(fields@) == cat48_projection(*rec),
{
    let mut fields: Vec<Field> = Vec::new();
    assert(views(fields@) =~= Seq::<FieldView>::empty());
    put_number(&mut fields, "Category", Some(rec.category as i64));
    put_number(
        &mut fields,
        "SAC",
        match rec.sac {
            Some(v) => Some(v as i64),
            None => None,
        },
    );
    put_number(
        &mut fields,
        "SIC",
        match rec.sic {
            Some(v) => Some(v as i64),
            None => None,
        },
    );
    put_scaled(
        &mut fields,
        "Time (s since midnight)",
        match rec.time_of_day {
            Some(v) => Some(Scaled { num: v as i64, den: 128 }),
            None => None,
        },
    );
    put_text(
        &mut fields,
        "Time String",
        match rec.time_of_day {
            Some(v) => Some(time_string(v)),
            None => None,
        },
    );
    match rec.target_desc {
        Some(part) => {
            project_target_desc(&mut fields, &part);
        },
        None => {},
    }
    put_scaled(&mut fields, "Range (NM)", rec.range_nm);
    put_scaled(&mut fields, "Range (m)", rec.range_m);
    put_scaled(&mut fields, "Theta (deg)", rec.theta);
    put_text(
        &mut fields,
        "Mode-3/A Code",
        match rec.mode3a_code {
            Some(v) => Some(mode3a_string(v)),
            None => None,
        },
    );
    put_scaled(&mut fields, "Flight Level (FL)", rec.flight_level);
    put_scaled(&mut fields, "Altitude (ft)", rec.altitude_ft);
    put_scaled(&mut fields, "Altitude (m)", rec.altitude_m);
    match rec.radar_plot_characteristics {
        Some(part) => {
            project_radar_plot(&mut fields, &part);
        },
        None => {},
    }
    put_text(
        &mut fields,
        "Aircraft Address",
        match rec.aircraft_address {
            Some(v) => Some(address_string(v)),
            None => None,
        },
    );
    put_text(
        &mut fields,
        "Target Identification",
        match rec.target_identification {
            Some(v) => Some(ident_string(v)),
            None => None,
        },
    );
    match rec.mode_s_mb_data {
        Some(part) => {
            project_mode_s_mb(&mut fields, &part);
        },
        None => {},
    }
    put_number(
        &mut fields,
        "Track Number",
        match rec.track_number {
            Some(v) => Some(v as i64),
            None => None,
        },
    );
    match rec.calc_track_vel_polar {
        Some(part) => {
            project_velocity(&mut fields, &part);
        },
        None => {},
    }
    match rec.track_status {
        Some(part) => {
            project_track_status(&mut fields, &part);
        },
        None => {},
    }
    match rec.com_acas {
        Some(part) => {
            project_com_acas(&mut fields, &part);
        },
        None => {},
    }
    fields
}

/// The projection of a category 21 record: its entries by name, in the order
/// of the record, the absent ones left out.
pub open spec fn cat21_projection(rec: Cat21) -> Seq<FieldView> {
    let acc = Seq::<FieldView>::empty();
    let acc = with_number(acc, "Category"@, Some(rec.category as int));
    let acc = with_number(
        acc,
        "SAC"@,
        match rec.sac {
            Some(v) => Some(v as int),
            None => None,
        },
    );
    let acc = with_number(
        acc,
        "SIC"@,
        match rec.sic {
            Some(v) => Some(v as int),
            None => None,
        },
    );
    let acc = with_text(
        acc,
        "ATP Description"@,
        match rec.atp {
            Some(v) => Some(atp_text(v)),
            None => None,
        },
    );
    let acc = with_text(
        acc,
        "ARC Description"@,
        match rec.arc {
            Some(v) => Some(arc_text(v)),
            None => None,
        },
    );
    let acc = with_text(
        acc,
        "RC Description"@,
        match rec.rc {
            Some(v) => Some(rc_text(v)),
            None => None,
        },
    );
    let acc = with_text(
        acc,
        "RAB Description"@,
        match rec.rab {
            Some(v) => Some(rab_text(v)),
            None => None,
        },
    );
    let acc = with_number(
        acc,
        "GBS"@,
        match rec.gbs {
            Some(v) => Some(v as int),
            None => None,
        },
    );
    let acc = with_scaled(acc, "Latitude (deg)"@, rec.latitude);
    let acc = with_scaled(acc, "Longitude (deg)"@, rec.longitude);
    let acc = with_text(
        acc,
        "ICAO Address (hex)"@,
        match rec.icao_address {
            Some(v) => Some(address_text_of(v)),
            None => None,
        },
    );
    let acc = with_scaled(
        acc,
        "Time (s since midnight)"@,
        match rec.time_of_reception_position {
            Some(v) => Some(ratio(v as int, 128)),
            None => None,
        },
    );
    let acc = with_text(
        acc,
        "Time String"@,
        match rec.time_of_reception_position {
            Some(v) => Some(time_text_of(v)),
            None => None,
        },
    );
    let acc = with_text(
        acc,
        "Mode-3/A Code"@,
        match rec.mode3a_code {
            Some(v) => Some(mode3a_text_of(v)),
            None => None,
        },
    );
    let acc = with_scaled(acc, "Flight Level (FL)"@, rec.flight_level);
    let acc = with_scaled(acc, "Altitude (ft)"@, rec.altitude_ft);
    let acc = with_scaled(acc, "Altitude (m)"@, rec.altitude_m);
    let acc = with_scaled(acc, "Height (ft)"@, rec.height_ft);
    let acc = with_scaled(acc, "Height (m)"@, rec.height_m);
    let acc = with_scaled(
        acc,
        "IAS (kt)"@,
        match rec.ias {
            Some(v) => Some(ratio(v as int, 1)),
            None => None,
        },
    );
    let acc = with_scaled(acc, "mach"@, rec.mach);
    let acc = with_scaled(acc, "Magnetic Heading (deg)"@, rec.magnetic_heading);
    let acc = with_text(
        acc,
        "Target Identification"@,
        match rec.target_identification {
            Some(v) => Some(ident_text_of(v)),
            None => None,
        },
    );
    let acc = with_scaled(acc, "Barometric Pressure Setting"@, rec.barometric_pressure_setting);
    let acc = with_flag(acc, "Is_Static"@, rec.is_static);
    acc
}

/// Projects a category 21 record onto its named entries.
pub fn project_cat21(rec: &Cat21) -> (fields: Vec<Field>)
    ensures
        views(fields@) == cat21_projection(*rec),
{
    let mut fields: Vec<Field> = Vec::new();
    assert(views(fields@) =~= Seq::<FieldView>::empty());
    put_number(&mut fields, "Category", Some(rec.category as i64));
    put_number(
        &mut fields,
        "SAC",
        match rec.sac {
            Some(v) => Some(v as i64),
            None => None,
        },
    );
    put_number(
        &mut fields,
        "SIC",
        match rec.sic {
            Some(v) => Some(v as i64),
            None => None,
        },
    );
    put_text(
        &mut fields,
        "ATP Description",
        match rec.atp {
            Some(v) => Some(atp_name(v).to_owned()),
            None => None,
        },
    );
    put_text(
        &mut fields,
        "ARC Description",
        match rec.arc {
            Some(v) => Some(arc_name(v).to_owned()),
            None => None,
        },
    );
    put_text(
        &mut fields,
        "RC Description",
        match rec.rc {
            Some(v) => Some(rc_name(v).to_owned()),
            None => None,
        },
    );
    put_text(
        &mut fields,
        "RAB Description",
        match rec.rab {
            Some(v) => Some(rab_name(v).to_owned()),
            None => None,
        },
    );
    put_number(
        &mut fields,
        "GBS",
        match rec.gbs {
            Some(v) => Some(v as i64),
            None => None,
        },
    );
    put_scaled(&mut fields, "Latitude (deg)", rec.latitude);
    put_scaled(&mut fields, "Longitude (deg)", rec.longitude);
    put_text(
        &mut fields,
        "ICAO Address (hex)",
        match rec.icao_address {
            Some(v) => Some(address_string(v)),
            None => None,
        },
    );
    put_scaled(
        &mut fields,
        "Time (s since midnight)",
        match rec.time_of_reception_position {
            Some(v) => Some(Scaled { num: v as i64, den: 128 }),
            None => None,
        },
    );
    put_text(
        &mut fields,
        "Time String",
        match rec.time_of_reception_position {
            Some(v) => Some(time_string(v)),
            None => None,
        },
    );
    put_text(
        &mut fields,
        "Mode-3/A Code",
        match rec.mode3a_code {
            Some(v) => Some(mode3a_string(v)),
            None => None,
        },
    );
    put_scaled(&mut fields, "Flight Level (FL)", rec.flight_level);
    put_scaled(&mut fields, "Altitude (ft)", rec.altitude_ft);
    put_scaled(&mut fields, "Altitude (m)", rec.altitude_m);
    put_scaled(&mut fields, "Height (ft)", rec.height_ft);
    put_scaled(&mut fields, "Height (m)", rec.height_m);
    put_scaled(
        &mut fields,
        "IAS (kt)",
        match rec.ias {
            Some(v) => Some(Scaled { num: v as i64, den: 1 }),
            None => None,
        },
    );
    put_scaled(&mut fields, "mach", rec.mach);
    put_scaled(&mut fields, "Magnetic Heading (deg)", rec.magnetic_heading);
    put_text(
        &mut fields,
        "Target Identification",
        match rec.target_identification {
            Some(v) => Some(ident_string(v)),
            None => None,
        },
    );
    put_scaled(&mut fields, "Barometric Pressure Setting", rec.barometric_pressure_setting);
    put_flag(&mut fields, "Is_Static", rec.is_static);
    fields
}

/// The projection of a record of either category.
pub open spec fn record_projection(record: Record) -> Seq<FieldView> {
    match record {
        Record::Cat21(rec) => cat21_projection(rec),
        Record::Cat48(rec) => cat48_projection(rec),
    }
}

/// Projects a record of either category onto its named entries.
pub fn project_record(record: &Record) -> (fields: Vec<Field>)
    ensures
        views(fields@) == record_projection(*record),
{
    match record {
        Record::Cat21(rec) => project_cat21(rec),
        Record::Cat48(rec) => project_cat48(rec),
    }
}

} // verus!
