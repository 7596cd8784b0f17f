//! The probe command: its arguments and the report it prints.
use vstd::prelude::*;

use crate::capability::{LevelRange, ProbeNote, ProbeReport, SystemDesign};
use crate::domain::capability::{CapabilitySet, FanScale, Support};
use crate::domain::identity::DeviceIdentity;
use crate::domain::policy::{FanLevels, GpuPlatformPolicy, MuxMode};
use crate::format::{align_left, cat2, cat3, cat4, cat5, left_aligned, maybe_level, maybe_level_text, truth, truth_text};
use crate::measurements::texts;
use crate::text::{decimal, decimal_text, hex_text, numeral};

verus! {

/// Where the probe writes its results.
#[derive(Debug, PartialEq)]
pub struct ProbeArgs {
    pub json: Option<String>,
    pub emit_board_profile: Option<String>,
    pub record_fixtures: Option<String>,
}

/// One level pair of the firmware's fan table.
#[derive(Clone, Copy, Debug, PartialEq, Eq, Structural)]
pub struct FanTableEntry {
    pub left: u16,
    pub right: u16,
    pub noise_db: u8,
}

/// The firmware's fan table.
#[derive(Debug, PartialEq)]
pub struct FanTable {
    pub num_fans: u8,
    pub entries: Vec<FanTableEntry>,
    pub clamp: Option<LevelRange>,
}

/// What trying out one provider gave.
#[derive(Debug, PartialEq)]
pub struct SmokeRow {
    pub provider: String,
    pub status: String,
    pub detail: Option<String>,
}

/// A support level in words.
pub open spec fn support_text(s: Support) -> Seq<char> {
    match s {
        Support::Supported => "SUPPORTED"@,
        Support::Experimental => "EXPERIMENTAL"@,
        Support::Unsupported => "unsupported"@,
        Support::NotProbed => "not-probed"@,
    }
}

/// A support level in words.
pub fn support_str(s: Support) -> (r: &'static str)
    ensures
        r@ == support_text(s),
{
    match s {
        Support::Supported => "SUPPORTED",
        Support::Experimental => "EXPERIMENTAL",
        Support::Unsupported => "unsupported",
        Support::NotProbed => "not-probed",
    }
}

fn added(out: &mut Vec<String>, line: String)
    ensures
        texts(final(out)@) == texts(old(out)@).push(line@),
{
    out.push(line);
    assert(texts(out@) =~= texts(old(out)@).push(line@));
}

fn joined_lines(out: &mut Vec<String>, more: Vec<String>)
    ensures
        texts(final(out)@) == texts(old(out)@) + texts(more@),
{
    let mut rest = more;
    out.append(&mut rest);
    assert(texts(out@) =~= texts(old(out)@) + texts(more@));
}

/// A headline, with an empty line before it.
pub open spec fn headline(text: Seq<char>) -> Seq<Seq<char>> {
    seq![""@, text]
}

fn add_headline(out: &mut Vec<String>, text: &str)
    ensures
        texts(final(out)@) == texts(old(out)@) + headline(text@),
{
    let ghost before = texts(out@);
    added(out, String::from_str(""));
    added(out, String::from_str(text));
    assert(texts(out@) =~= before + headline(text@));
}

// ---- Identity ------------------------------------------------------------

pub open spec fn gpu_names(gpus: Seq<String>) -> Seq<Seq<char>> {
    Seq::new(gpus.len(), |i: int| "  gpu     : "@ + gpus[i]@)
}

/// Who the machine is, and whether its board is known.
pub open spec fn identity_section(id: DeviceIdentity, known: bool, elevated: bool) -> Seq<Seq<char>> {
    headline("-- identity --"@) + seq![
        "  product : "@ + id.product_name@,
        "  board   : "@ + id.board_id@ + " "@ + (if known { "(KNOWN)"@ } else { "(UNKNOWN — read-only)"@ }),
        "  bios    : "@ + id.bios_version@,
        "  cpu     : "@ + id.cpu@,
    ] + gpu_names(id.gpus@) + seq!["  elevated: "@ + truth(elevated)]
}

fn identity_lines(id: &DeviceIdentity, known: bool, elevated: bool) -> (r: Vec<String>)
    ensures
        texts(r@) == identity_section(*id, known, elevated),
{
    let mut out: Vec<String> = Vec::new();
    add_headline(&mut out, "-- identity --");
    added(&mut out, cat2("  product : ", id.product_name.as_str()));
    added(
        &mut out,
        cat4(
            "  board   : ",
            id.board_id.as_str(),
            " ",
            if known {
                "(KNOWN)"
            } else {
                "(UNKNOWN — read-only)"
            },
        ),
    );
    added(&mut out, cat2("  bios    : ", id.bios_version.as_str()));
    added(&mut out, cat2("  cpu     : ", id.cpu.as_str()));
    let ghost head = texts(out@);
    let mut i: usize = 0;
    assert(head + gpu_names(id.gpus@).take(0) =~= head);
    while i < id.gpus.len()
        invariant
            i <= id.gpus@.len(),
            texts(out@) == head + gpu_names(id.gpus@).take(i as int),
        decreases id.gpus@.len() - i,
    {
        added(&mut out, cat2("  gpu     : ", id.gpus[i].as_str()));
        i = i + 1;
        assert(head + gpu_names(id.gpus@).take(i as int) =~= (head + gpu_names(id.gpus@).take(i - 1)).push(
            gpu_names(id.gpus@)[i - 1],
        ));
    }
    added(&mut out, cat2("  elevated: ", truth_text(elevated)));
    assert(gpu_names(id.gpus@).take(i as int) =~= gpu_names(id.gpus@));
    assert(texts(out@) =~= identity_section(*id, known, elevated));
    out
}

// ---- Capabilities --------------------------------------------------------

pub open spec fn scale_text(s: FanScale) -> Seq<char> {
    match s {
        FanScale::Unknown => "Unknown"@,
        FanScale::Krpm => "Krpm"@,
    }
}

fn scale_str(s: FanScale) -> (r: &'static str)
    ensures
        r@ == scale_text(s),
{
    match s {
        FanScale::Unknown => "Unknown",
        FanScale::Krpm => "Krpm",
    }
}

pub open spec fn fan_line_text(c: CapabilitySet) -> Seq<char> {
    "  fan: count="@ + decimal(c.fan.count as nat) + " scale="@ + scale_text(c.fan.scale) + " clamp="@ + maybe_level(
        c.fan.clamp_min,
    ) + "-"@ + maybe_level(c.fan.clamp_max) + " sw-declared="@ + truth(c.fan.sw_control_declared)
}

fn fan_line(c: &CapabilitySet) -> (r: String)
    ensures
        r@ == fan_line_text(*c),
{
    let mut s = cat5(
        "  fan: count=",
        decimal_text(c.fan.count as u64).as_str(),
        " scale=",
        scale_str(c.fan.scale),
        " clamp=",
    );
    s.append(maybe_level_text(c.fan.clamp_min).as_str());
    s.append("-");
    s.append(maybe_level_text(c.fan.clamp_max).as_str());
    s.append(" sw-declared=");
    s.append(truth_text(c.fan.sw_control_declared));
    s
}

/// What the machine can do.
pub open spec fn capability_section(c: CapabilitySet) -> Seq<Seq<char>> {
    headline("-- capabilities --"@) + seq![
        "  thermal mode (0x1A)     : "@ + support_text(c.thermal_mode),
        "  fan rpm read (0x2D)     : "@ + support_text(c.fan_rpm_read),
        "  fan manual level (0x2E) : "@ + support_text(c.fan_manual_level),
        "  max fan (0x27)          : "@ + support_text(c.max_fan),
        "  gpu platform (0x21/22)  : "@ + support_text(c.gpu_platform_policy),
        "  mux (0x52)              : "@ + support_text(c.mux),
        "  power limits (0x29)     : "@ + support_text(c.power_limits) + " (staged verification required)"@,
        fan_line_text(c),
    ]
}

fn capability_lines(c: &CapabilitySet) -> (r: Vec<String>)
    ensures
        texts(r@) == capability_section(*c),
{
    let mut out: Vec<String> = Vec::new();
    add_headline(&mut out, "-- capabilities --");
    added(&mut out, cat2("  thermal mode (0x1A)     : ", support_str(c.thermal_mode)));
    added(&mut out, cat2("  fan rpm read (0x2D)     : ", support_str(c.fan_rpm_read)));
    added(&mut out, cat2("  fan manual level (0x2E) : ", support_str(c.fan_manual_level)));
    added(&mut out, cat2("  max fan (0x27)          : ", support_str(c.max_fan)));
    added(&mut out, cat2("  gpu platform (0x21/22)  : ", support_str(c.gpu_platform_policy)));
    added(&mut out, cat2("  mux (0x52)              : ", support_str(c.mux)));
    added(
        &mut out,
        cat3("  power limits (0x29)     : ", support_str(c.power_limits), " (staged verification required)"),
    );
    added(&mut out, fan_line(c));
    assert(texts(out@) =~= capability_section(*c));
    out
}

// ---- Firmware readings ---------------------------------------------------

/// A byte in two hexadecimal digits.
pub open spec fn hex_byte(b: u8) -> Seq<char> {
    (if b < 16 { "0"@ } else { ""@ }) + numeral(b as nat, 16)
}

pub open spec fn design_line_text(d: SystemDesign) -> Seq<char> {
    "  tp_version="@ + decimal(d.thermal_policy_version as nat) + " sw_fan="@ + truth(d.sw_fan_control)
        + " default_pl4="@ + decimal(d.default_pl4_w as nat) + "W mux_byte=0x"@ + hex_byte(d.mux_byte)
        + " mux_supported="@ + truth(d.mux_supported)
}

fn design_line(d: &SystemDesign) -> (r: String)
    ensures
        r@ == design_line_text(*d),
{
    let mut s = cat5(
        "  tp_version=",
        decimal_text(d.thermal_policy_version as u64).as_str(),
        " sw_fan=",
        truth_text(d.sw_fan_control),
        " default_pl4=",
    );
    s.append(decimal_text(d.default_pl4_w as u64).as_str());
    s.append("W mux_byte=0x");
    let byte = cat2(
        if d.mux_byte < 16 {
            "0"
        } else {
            ""
        },
        hex_text(d.mux_byte as u64).as_str(),
    );
    s.append(byte.as_str());
    s.append(" mux_supported=");
    s.append(truth_text(d.mux_supported));
    s
}

/// What the firmware declares of itself, where it could be read.
pub open spec fn design_section(d: Option<SystemDesign>) -> Seq<Seq<char>> {
    match d {
        Some(d) => headline("-- system design data (0x28) --"@) + seq![design_line_text(d)],
        None => Seq::empty(),
    }
}

fn design_lines(d: &Option<SystemDesign>) -> (r: Vec<String>)
    ensures
        texts(r@) == design_section(*d),
{
    let mut out: Vec<String> = Vec::new();
    if let Some(d) = d {
        add_headline(&mut out, "-- system design data (0x28) --");
        added(&mut out, design_line(d));
    }
    assert(texts(out@) =~= design_section(*d));
    out
}

pub open spec fn entry_line(i: int, e: FanTableEntry) -> Seq<char> {
    "    ["@ + decimal(i as nat) + "] left="@ + decimal(e.left as nat) + " right="@ + decimal(e.right as nat)
        + " noise="@ + decimal(e.noise_db as nat) + "dB"@
}

pub open spec fn entry_lines(entries: Seq<FanTableEntry>) -> Seq<Seq<char>> {
    Seq::new(entries.len(), |i: int| entry_line(i, entries[i]))
}

pub open spec fn clamp_text(c: Option<LevelRange>) -> Seq<char> {
    match c {
        Some(r) => "  clamp: Some(("@ + decimal(r.lo as nat) + ", "@ + decimal(r.hi as nat) + "))"@,
        None => "  clamp: None"@,
    }
}

/// The fan table, where it could be read.
pub open spec fn table_section(t: Option<FanTable>) -> Seq<Seq<char>> {
    match t {
        Some(t) => headline("-- fan table (0x2F) --"@) + seq![
            "  num_fans="@ + decimal(t.num_fans as nat) + " entries="@ + decimal(t.entries@.len()),
        ] + entry_lines(t.entries@) + seq![clamp_text(t.clamp)],
        None => Seq::empty(),
    }
}

fn table_lines(t: &Option<FanTable>) -> (r: Vec<String>)
    ensures
        texts(r@) == table_section(*t),
{
    let mut out: Vec<String> = Vec::new();
    match t {
        None => {
            assert(texts(out@) =~= table_section(*t));
            out
        },
        Some(table) => {
            add_headline(&mut out, "-- fan table (0x2F) --");
            added(
                &mut out,
                cat4(
                    "  num_fans=",
                    decimal_text(table.num_fans as u64).as_str(),
                    " entries=",
                    decimal_text(table.entries.len() as u64).as_str(),
                ),
            );
            let ghost head = texts(out@);
            let ghost all = entry_lines(table.entries@);
            let mut i: usize = 0;
            assert(head + all.take(0) =~= head);
            while i < table.entries.len()
                invariant
                    i <= table.entries@.len(),
                    all == entry_lines(table.entries@),
                    texts(out@) == head + all.take(i as int),
                decreases table.entries@.len() - i,
            {
                let e = table.entries[i];
                let mut s = cat5(
                    "    [",
                    decimal_text(i as u64).as_str(),
                    "] left=",
                    decimal_text(e.left as u64).as_str(),
                    " right=",
                );
                s.append(decimal_text(e.right as u64).as_str());
                s.append(" noise=");
                s.append(decimal_text(e.noise_db as u64).as_str());
                s.append("dB");
                added(&mut out, s);
                i = i + 1;
                assert(head + all.take(i as int) =~= (head + all.take(i - 1)).push(all[i - 1]));
            }
            let clamp = match &table.clamp {
                Some(range) => cat5(
                    "  clamp: Some((",
                    decimal_text(range.lo as u64).as_str(),
                    ", ",
                    decimal_text(range.hi as u64).as_str(),
                    "))",
                ),
                None => String::from_str("  clamp: None"),
            };
            added(&mut out, clamp);
            assert(all.take(i as int) =~= all);
            assert(texts(out@) =~= table_section(*t));
            out
        },
    }
}

pub open spec fn levels_line_text(l: FanLevels) -> Seq<char> {
    "  left="@ + decimal(l.left as nat) + " ("@ + decimal((l.left * 100) as nat) + " RPM) right="@ + decimal(
        l.right as nat,
    ) + " ("@ + decimal((l.right * 100) as nat) + " RPM)"@
}

fn levels_line(l: &FanLevels) -> (r: String)
    ensures
        r@ == levels_line_text(*l),
{
    let mut s = cat5(
        "  left=",
        decimal_text(l.left as u64).as_str(),
        " (",
        decimal_text(l.left_rpm() as u64).as_str(),
        " RPM) right=",
    );
    s.append(decimal_text(l.right as u64).as_str());
    s.append(" (");
    s.append(decimal_text(l.right_rpm() as u64).as_str());
    s.append(" RPM)");
    s
}

pub open spec fn gpu_line_text(p: GpuPlatformPolicy) -> Seq<char> {
    "  ctgp="@ + truth(p.ctgp) + " ppab="@ + truth(p.ppab) + " dstate="@ + decimal(p.dstate as nat)
        + " slowdown_temp="@ + decimal(p.slowdown_temp_c as nat) + "C"@
}

fn gpu_line(p: &GpuPlatformPolicy) -> (r: String)
    ensures
        r@ == gpu_line_text(*p),
{
    let mut s = cat5("  ctgp=", truth_text(p.ctgp), " ppab=", truth_text(p.ppab), " dstate=");
    s.append(decimal_text(p.dstate as u64).as_str());
    s.append(" slowdown_temp=");
    s.append(decimal_text(p.slowdown_temp_c as u64).as_str());
    s.append("C");
    s
}

pub open spec fn mux_text(m: MuxMode) -> Seq<char> {
    match m {
        MuxMode::Hybrid => "  current: Hybrid"@,
        MuxMode::Discrete => "  current: Discrete"@,
        MuxMode::Other(n) => "  current: Other("@ + decimal(n as nat) + ")"@,
    }
}

fn mux_line(m: &MuxMode) -> (r: String)
    ensures
        r@ == mux_text(*m),
{
    match *m {
        MuxMode::Hybrid => String::from_str("  current: Hybrid"),
        MuxMode::Discrete => String::from_str("  current: Discrete"),
        MuxMode::Other(n) => cat3("  current: Other(", decimal_text(n as u64).as_str(), ")"),
    }
}

/// The other firmware readings, each where it succeeded.
pub open spec fn readings_section(
    levels: Option<FanLevels>,
    gpu: Option<GpuPlatformPolicy>,
    mux: Option<MuxMode>,
    diag: Option<bool>,
) -> Seq<Seq<char>> {
    (match levels {
        Some(l) => headline("-- fan levels (0x2D) --"@) + seq![levels_line_text(l)],
        None => Seq::empty(),
    }) + (match gpu {
        Some(p) => headline("-- gpu platform policy (0x21) --"@) + seq![gpu_line_text(p)],
        None => Seq::empty(),
    }) + (match mux {
        Some(m) => headline("-- mux (0x52) --"@) + seq![mux_text(m)],
        None => Seq::empty(),
    }) + (match diag {
        Some(v) => headline("-- 0x26 max fan (DIAGNOSTICS ONLY, unreliable) --"@) + seq!["  reads: "@ + truth(v)],
        None => Seq::empty(),
    })
}

fn section(head: &str, line: String) -> (r: Vec<String>)
    ensures
        texts(r@) == headline(head@) + seq![line@],
{
    let mut out: Vec<String> = Vec::new();
    add_headline(&mut out, head);
    added(&mut out, line);
    assert(texts(out@) =~= headline(head@) + seq![line@]);
    out
}

fn no_lines() -> (r: Vec<String>)
    ensures
        texts(r@) == Seq::<Seq<char>>::empty(),
{
    let out: Vec<String> = Vec::new();
    assert(texts(out@) =~= Seq::<Seq<char>>::empty());
    out
}

fn readings_lines(
    levels: &Option<FanLevels>,
    gpu: &Option<GpuPlatformPolicy>,
    mux: &Option<MuxMode>,
    diag: Option<bool>,
) -> (r: Vec<String>)
    ensures
        texts(r@) == readings_section(*levels, *gpu, *mux, diag),
{
    let mut out = match levels {
        Some(l) => section("-- fan levels (0x2D) --", levels_line(l)),
        None => no_lines(),
    };
    joined_lines(
        &mut out,
        match gpu {
            Some(p) => section("-- gpu platform policy (0x21) --", gpu_line(p)),
            None => no_lines(),
        },
    );
    joined_lines(
        &mut out,
        match mux {
            Some(m) => section("-- mux (0x52) --", mux_line(m)),
            None => no_lines(),
        },
    );
    joined_lines(
        &mut out,
        match diag {
            Some(v) => section(
                "-- 0x26 max fan (DIAGNOSTICS ONLY, unreliable) --",
                cat2("  reads: ", truth_text(v)),
            ),
            None => no_lines(),
        },
    );
    out
}

// ---- Processor settings, providers and notes ------------------------------

/// The processor settings.
pub open spec fn ppm_section(epp_ac: Option<u8>, epp_dc: Option<u8>, max_freq: Option<u32>) -> Seq<Seq<char>> {
    headline("-- ppm (PowrProf) --"@) + seq![
        match (epp_ac, epp_dc) {
            (Some(ac), Some(dc)) => "  EPP: AC="@ + decimal(ac as nat) + "% DC="@ + decimal(dc as nat)
                + "% (0=max perf, 100=max efficiency)"@,
            _ => "  EPP: unreadable"@,
        },
        match max_freq {
            Some(mhz) => if mhz == 0 {
                "  max freq ceiling: unlimited"@
            } else {
                "  max freq ceiling: "@ + decimal(mhz as nat) + " MHz"@
            },
            None => "  max freq ceiling: unreadable"@,
        },
    ]
}

fn ppm_lines(epp_ac: Option<u8>, epp_dc: Option<u8>, max_freq: Option<u32>) -> (r: Vec<String>)
    ensures
        texts(r@) == ppm_section(epp_ac, epp_dc, max_freq),
{
    let mut out: Vec<String> = Vec::new();
    add_headline(&mut out, "-- ppm (PowrProf) --");
    let epp = match (epp_ac, epp_dc) {
        (Some(ac), Some(dc)) => cat5(
            "  EPP: AC=",
            decimal_text(ac as u64).as_str(),
            "% DC=",
            decimal_text(dc as u64).as_str(),
            "% (0=max perf, 100=max efficiency)",
        ),
        _ => String::from_str("  EPP: unreadable"),
    };
    added(&mut out, epp);
    let freq = match max_freq {
        Some(mhz) => if mhz == 0 {
            String::from_str("  max freq ceiling: unlimited")
        } else {
            cat3("  max freq ceiling: ", decimal_text(mhz as u64).as_str(), " MHz")
        },
        None => String::from_str("  max freq ceiling: unreadable"),
    };
    added(&mut out, freq);
    assert(texts(out@) =~= ppm_section(epp_ac, epp_dc, max_freq));
    out
}

pub open spec fn smoke_line(row: SmokeRow) -> Seq<char> {
    "  "@ + left_aligned(row.provider@, 18) + " "@ + left_aligned(row.status@, 5) + " "@ + (match row.detail {
        Some(d) => d@,
        None => ""@,
    })
}

pub open spec fn smoke_rows(rows: Seq<SmokeRow>) -> Seq<Seq<char>> {
    Seq::new(rows.len(), |i: int| smoke_line(rows[i]))
}

/// What trying out the providers gave.
pub open spec fn smoke_section(rows: Seq<SmokeRow>) -> Seq<Seq<char>> {
    headline("-- provider smoke (read-only) --"@) + smoke_rows(rows)
}

fn smoke_lines(rows: &Vec<SmokeRow>) -> (r: Vec<String>)
    ensures
        texts(r@) == smoke_section(rows@),
{
    let mut out: Vec<String> = Vec::new();
    add_headline(&mut out, "-- provider smoke (read-only) --");
    let ghost head = texts(out@);
    let ghost all = smoke_rows(rows@);
    assert(head =~= headline("-- provider smoke (read-only) --"@));
    assert(head + all.take(0) =~= head);
    let mut i: usize = 0;
    while i < rows.len()
        invariant
            i <= rows@.len(),
            all == smoke_rows(rows@),
            texts(out@) == head + all.take(i as int),
        decreases rows@.len() - i,
    {
        let row = &rows[i];
        let detail = match &row.detail {
            Some(d) => d.as_str(),
            None => "",
        };
        let mut s = cat5(
            "  ",
            align_left(row.provider.as_str(), 18).as_str(),
            " ",
            align_left(row.status.as_str(), 5).as_str(),
            " ",
        );
        s.append(detail);
        added(&mut out, s);
        i = i + 1;
        assert(head + all.take(i as int) =~= (head + all.take(i - 1)).push(all[i - 1]));
    }
    assert(all.take(i as int) =~= all);
    out
}

pub open spec fn note_rows(notes: Seq<ProbeNote>) -> Seq<Seq<char>> {
    Seq::new(notes.len(), |i: int| "  * "@ + notes[i].spec_text())
}

/// The notes, if there are any.
pub open spec fn notes_section(notes: Seq<ProbeNote>) -> Seq<Seq<char>> {
    if notes.len() == 0 { Seq::empty() } else { headline("-- notes --"@) + note_rows(notes) }
}

fn notes_lines(notes: &Vec<ProbeNote>) -> (r: Vec<String>)
    ensures
        texts(r@) == notes_section(notes@),
{
    if notes.len() == 0 {
        return no_lines();
    }
    let mut out: Vec<String> = Vec::new();
    add_headline(&mut out, "-- notes --");
    let ghost head = texts(out@);
    let ghost all = note_rows(notes@);
    assert(head =~= headline("-- notes --"@));
    assert(head + all.take(0) =~= head);
    let mut i: usize = 0;
    while i < notes.len()
        invariant
            i <= notes@.len(),
            all == note_rows(notes@),
            texts(out@) == head + all.take(i as int),
        decreases notes@.len() - i,
    {
        added(&mut out, cat2("  * ", notes[i].text().as_str()));
        i = i + 1;
        assert(head + all.take(i as int) =~= (head + all.take(i - 1)).push(all[i - 1]));
    }
    assert(all.take(i as int) =~= all);
    out
}

/// The whole report, section by section.
pub open spec fn report_text(id: DeviceIdentity, r: ProbeReport, table: Option<FanTable>, smoke: Seq<SmokeRow>) -> Seq<
    Seq<char>,
> {
    identity_section(id, r.known_board, r.elevated) + capability_section(r.capabilities) + design_section(r.design)
        + table_section(table) + readings_section(r.fan_levels, r.gpu_platform_policy, r.mux, r.max_fan_diag)
        + ppm_section(r.epp_ac, r.epp_dc, r.max_freq_mhz) + smoke_section(smoke) + notes_section(r.notes@)
}

/// The lines of the report.
pub fn print_report(id: &DeviceIdentity, r: &ProbeReport, table: &Option<FanTable>, smoke: &Vec<SmokeRow>) -> (out: Vec<
    String,
>)
    ensures
        texts(out@) == report_text(*id, *r, *table, smoke@),
{
    let mut out = identity_lines(id, r.known_board, r.elevated);
    joined_lines(&mut out, capability_lines(&r.capabilities));
    joined_lines(&mut out, design_lines(&r.design));
    joined_lines(&mut out, table_lines(table));
    joined_lines(&mut out, readings_lines(&r.fan_levels, &r.gpu_platform_policy, &r.mux, r.max_fan_diag));
    joined_lines(&mut out, ppm_lines(r.epp_ac, r.epp_dc, r.max_freq_mhz));
    joined_lines(&mut out, smoke_lines(smoke));
    joined_lines(&mut out, notes_lines(&r.notes));
    out
}

} // verus!
