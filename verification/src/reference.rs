//! The reference model: carbon intensity by region and power draw by
//! hardware profile.
//!
//! Both tables are plain data. A lookup walks the rows in order and takes the
//! first whose code matches; a code that no row has is left to the caller,
//! who falls back to [`fallback_intensity`] or [`fallback_profile`].

use vstd::prelude::*;

verus! {

/// Carbon intensity of the electricity of one region.
#[derive(Clone, Debug, PartialEq, Eq)]
pub struct CarbonIntensityEntry {
    /// The code the region is looked up by.
    pub code: String,
    /// The region's display name.
    pub region: String,
    /// Micrograms of CO2 per kWh.
    pub micro_g_per_kwh: u64,
}

/// What a [`CarbonIntensityEntry`] holds.
pub struct CarbonIntensityView {
    pub code: Seq<char>,
    pub region: Seq<char>,
    pub micro_g_per_kwh: u64,
}

impl View for CarbonIntensityEntry {
    type V = CarbonIntensityView;

    open spec fn view(&self) -> CarbonIntensityView {
        CarbonIntensityView {
            code: self.code@,
            region: self.region@,
            micro_g_per_kwh: self.micro_g_per_kwh,
        }
    }
}

/// Power draw of one class of hardware.
#[derive(Clone, Debug, PartialEq, Eq)]
pub struct HardwareProfileEntry {
    /// The code the profile is looked up by.
    pub code: String,
    /// Thermal design power of the CPU, in microwatts.
    pub cpu_tdp_micro_w: u64,
    /// Power of one gigabyte of memory, in microwatts.
    pub memory_micro_w_per_gb: u64,
}

/// What a [`HardwareProfileEntry`] holds.
pub struct HardwareProfileView {
    pub code: Seq<char>,
    pub cpu_tdp_micro_w: u64,
    pub memory_micro_w_per_gb: u64,
}

impl View for HardwareProfileEntry {
    type V = HardwareProfileView;

    open spec fn view(&self) -> HardwareProfileView {
        HardwareProfileView {
            code: self.code@,
            cpu_tdp_micro_w: self.cpu_tdp_micro_w,
            memory_micro_w_per_gb: self.memory_micro_w_per_gb,
        }
    }
}

/// Intensity used for a region that the table does not know: the global
/// average, 475 g of CO2 per kWh.
pub const FALLBACK_MICRO_G_PER_KWH: u64 = 475_000_000;

/// CPU power used for a hardware profile that the table does not know: 15 W.
pub const FALLBACK_CPU_TDP_MICRO_W: u64 = 15_000_000;

/// Memory power per gigabyte used for a hardware profile that the table does
/// not know: 0.3 W.
pub const FALLBACK_MEMORY_MICRO_W_PER_GB: u64 = 300_000;

/// The rows of the carbon intensity table.
pub open spec fn carbon_intensity_rows() -> Seq<CarbonIntensityView> {
    seq![
        CarbonIntensityView { code: "US-WEST"@, region: "California"@, micro_g_per_kwh: 210_000_000 },
        CarbonIntensityView { code: "US-EAST"@, region: "Virginia"@, micro_g_per_kwh: 380_000_000 },
        CarbonIntensityView { code: "EU-WEST"@, region: "Ireland"@, micro_g_per_kwh: 300_000_000 },
        CarbonIntensityView { code: "EU-NORTH"@, region: "Sweden"@, micro_g_per_kwh: 25_000_000 },
        CarbonIntensityView { code: "ASIA-EAST"@, region: "Japan"@, micro_g_per_kwh: 470_000_000 },
        CarbonIntensityView { code: "ASIA-SOUTH"@, region: "India"@, micro_g_per_kwh: 700_000_000 },
        CarbonIntensityView { code: "GLOBAL-AVG"@, region: "Mixed"@, micro_g_per_kwh: 475_000_000 },
    ]
}

/// The rows of the hardware profile table.
pub open spec fn hardware_profile_rows() -> Seq<HardwareProfileView> {
    seq![
        HardwareProfileView { code: "laptop"@, cpu_tdp_micro_w: 15_000_000, memory_micro_w_per_gb: 300_000 },
        HardwareProfileView { code: "desktop"@, cpu_tdp_micro_w: 65_000_000, memory_micro_w_per_gb: 400_000 },
        HardwareProfileView { code: "server"@, cpu_tdp_micro_w: 150_000_000, memory_micro_w_per_gb: 500_000 },
    ]
}

/// The first row of `rows` with the code `code`.
pub open spec fn find_intensity(rows: Seq<CarbonIntensityView>, code: Seq<char>) -> Option<
    CarbonIntensityView,
>
    decreases rows.len(),
{
    if rows.len() == 0 {
        None
    } else if rows[0].code == code {
        Some(rows[0])
    } else {
        find_intensity(rows.drop_first(), code)
    }
}

/// The first row of `rows` with the code `code`.
pub open spec fn find_profile(rows: Seq<HardwareProfileView>, code: Seq<char>) -> Option<
    HardwareProfileView,
>
    decreases rows.len(),
{
    if rows.len() == 0 {
        None
    } else if rows[0].code == code {
        Some(rows[0])
    } else {
        find_profile(rows.drop_first(), code)
    }
}

/// The table's row for the region `code`, if it has one.
pub open spec fn carbon_intensity_of(code: Seq<char>) -> Option<CarbonIntensityView> {
    find_intensity(carbon_intensity_rows(), code)
}

/// The table's row for the hardware profile `code`, if it has one.
pub open spec fn hardware_profile_of(code: Seq<char>) -> Option<HardwareProfileView> {
    find_profile(hardware_profile_rows(), code)
}

/// The views of the entries of a table, in order.
pub open spec fn intensity_views(rows: Seq<CarbonIntensityEntry>) -> Seq<CarbonIntensityView> {
    rows.map_values(|e: CarbonIntensityEntry| e@)
}

/// The views of the entries of a table, in order.
pub open spec fn profile_views(rows: Seq<HardwareProfileEntry>) -> Seq<HardwareProfileView> {
    rows.map_values(|e: HardwareProfileEntry| e@)
}

fn intensity_entry(code: &str, region: &str, micro_g_per_kwh: u64) -> (e: CarbonIntensityEntry)
    ensures
        e@ == (CarbonIntensityView { code: code@, region: region@, micro_g_per_kwh }),
{
    CarbonIntensityEntry { code: code.to_owned(), region: region.to_owned(), micro_g_per_kwh }
}

fn profile_entry(code: &str, cpu_tdp_micro_w: u64, memory_micro_w_per_gb: u64) -> (e:
    HardwareProfileEntry)
    ensures
        e@ == (HardwareProfileView { code: code@, cpu_tdp_micro_w, memory_micro_w_per_gb }),
{
    HardwareProfileEntry { code: code.to_owned(), cpu_tdp_micro_w, memory_micro_w_per_gb }
}

/// The carbon intensity table.
pub fn get_carbon_intensity_map() -> (rows: Vec<CarbonIntensityEntry>)
    ensures
        intensity_views(rows@) == carbon_intensity_rows(),
{
    let mut rows: Vec<CarbonIntensityEntry> = Vec::new();
    rows.push(intensity_entry("US-WEST", "California", 210_000_000));
    rows.push(intensity_entry("US-EAST", "Virginia", 380_000_000));
    rows.push(intensity_entry("EU-WEST", "Ireland", 300_000_000));
    rows.push(intensity_entry("EU-NORTH", "Sweden", 25_000_000));
    rows.push(intensity_entry("ASIA-EAST", "Japan", 470_000_000));
    rows.push(intensity_entry("ASIA-SOUTH", "India", 700_000_000));
    rows.push(intensity_entry("GLOBAL-AVG", "Mixed", 475_000_000));
    rows
}

/// The hardware profile table.
pub fn get_hardware_profiles_map() -> (rows: Vec<HardwareProfileEntry>)
    ensures
        profile_views(rows@) == hardware_profile_rows(),
{
    let mut rows: Vec<HardwareProfileEntry> = Vec::new();
    rows.push(profile_entry("laptop", 15_000_000, 300_000));
    rows.push(profile_entry("desktop", 65_000_000, 400_000));
    rows.push(profile_entry("server", 150_000_000, 500_000));
    rows
}

/// The first entry of `rows` whose code is `code`.
pub fn lookup_intensity<'a>(rows: &'a Vec<CarbonIntensityEntry>, code: &str) -> (found: Option<
    &'a CarbonIntensityEntry,
>)
    ensures
        match found {
            Some(e) => find_intensity(intensity_views(rows@), code@) == Some(e@),
            None => find_intensity(intensity_views(rows@), code@) is None,
        },
{
    let key: String = code.to_owned();
    let ghost views = intensity_views(rows@);
    assert(views.skip(0) =~= views);
    let mut i: usize = 0;
    while i < rows.len()
        invariant
            i <= rows.len(),
            key@ == code@,
            views == intensity_views(rows@),
            find_intensity(views, code@) == find_intensity(views.skip(i as int), code@),
        decreases rows.len() - i,
    {
        assert(views.skip(i as int).drop_first() =~= views.skip(i + 1));
        if rows[i].code == key {
            return Some(&rows[i]);
        }
        i += 1;
    }
    None
}

/// The first entry of `rows` whose code is `code`.
pub fn lookup_profile<'a>(rows: &'a Vec<HardwareProfileEntry>, code: &str) -> (found: Option<
    &'a HardwareProfileEntry,
>)
    ensures
        match found {
            Some(e) => find_profile(profile_views(rows@), code@) == Some(e@),
            None => find_profile(profile_views(rows@), code@) is None,
        },
{
    let key: String = code.to_owned();
    let ghost views = profile_views(rows@);
    assert(views.skip(0) =~= views);
    let mut i: usize = 0;
    while i < rows.len()
        invariant
            i <= rows.len(),
            key@ == code@,
            views == profile_views(rows@),
            find_profile(views, code@) == find_profile(views.skip(i as int), code@),
        decreases rows.len() - i,
    {
        assert(views.skip(i as int).drop_first() =~= views.skip(i + 1));
        if rows[i].code == key {
            return Some(&rows[i]);
        }
        i += 1;
    }
    None
}

/// No two rows of the carbon intensity table have the same code, so each
/// row is the one that its code finds.
pub proof fn law_region_codes_distinct()
    ensures
        forall|i: int, j: int|
            0 <= i < j < carbon_intensity_rows().len() ==> carbon_intensity_rows()[i].code
                != carbon_intensity_rows()[j].code,
        forall|i: int|
            0 <= i < carbon_intensity_rows().len() ==> carbon_intensity_of(
                #[trigger] carbon_intensity_rows()[i].code,
            ) == Some(carbon_intensity_rows()[i]),
{
    reveal_strlit("US-WEST");
    reveal_strlit("US-EAST");
    reveal_strlit("EU-WEST");
    reveal_strlit("EU-NORTH");
    reveal_strlit("ASIA-EAST");
    reveal_strlit("ASIA-SOUTH");
    reveal_strlit("GLOBAL-AVG");
    let rows = carbon_intensity_rows();
    assert forall|i: int, j: int| 0 <= i < j < rows.len() implies rows[i].code != rows[j].code by {
        if rows[i].code.len() == rows[j].code.len() {
            assert(rows[i].code[0] != rows[j].code[0] || rows[i].code[3] != rows[j].code[3]
                || rows[i].code[5] != rows[j].code[5]);
        }
    }
    assert forall|i: int| 0 <= i < rows.len() implies carbon_intensity_of(
        #[trigger] rows[i].code,
    ) == Some(rows[i]) by {
        lemma_find_intensity_at(rows, i);
    }
}

/// A row whose code no earlier row has is the one that its code finds.
proof fn lemma_find_intensity_at(rows: Seq<CarbonIntensityView>, i: int)
    requires
        0 <= i < rows.len(),
        forall|k: int| 0 <= k < i ==> (#[trigger] rows[k]).code != rows[i].code,
    ensures
        find_intensity(rows, rows[i].code) == Some(rows[i]),
    decreases i,
{
    if i > 0 {
        lemma_find_intensity_at(rows.drop_first(), i - 1);
    }
}

/// A row whose code no earlier row has is the one that its code finds.
proof fn lemma_find_profile_at(rows: Seq<HardwareProfileView>, i: int)
    requires
        0 <= i < rows.len(),
        forall|k: int| 0 <= k < i ==> (#[trigger] rows[k]).code != rows[i].code,
    ensures
        find_profile(rows, rows[i].code) == Some(rows[i]),
    decreases i,
{
    if i > 0 {
        lemma_find_profile_at(rows.drop_first(), i - 1);
    }
}

/// No two rows of the hardware profile table have the same code, so each
/// row is the one that its code finds.
pub proof fn law_profile_codes_distinct()
    ensures
        forall|i: int, j: int|
            0 <= i < j < hardware_profile_rows().len() ==> hardware_profile_rows()[i].code
                != hardware_profile_rows()[j].code,
        forall|i: int|
            0 <= i < hardware_profile_rows().len() ==> hardware_profile_of(
                #[trigger] hardware_profile_rows()[i].code,
            ) == Some(hardware_profile_rows()[i]),
{
    reveal_strlit("laptop");
    reveal_strlit("desktop");
    reveal_strlit("server");
    let rows = hardware_profile_rows();
    assert forall|i: int, j: int| 0 <= i < j < rows.len() implies rows[i].code != rows[j].code by {
        if rows[i].code.len() == rows[j].code.len() {
            assert(rows[i].code[0] != rows[j].code[0]);
        }
    }
    assert forall|i: int| 0 <= i < rows.len() implies hardware_profile_of(
        #[trigger] rows[i].code,
    ) == Some(rows[i]) by {
        lemma_find_profile_at(rows, i);
    }
}

/// A code that no row of the carbon intensity table has finds nothing, so
/// the fallback applies to it.
pub proof fn law_unknown_region_finds_nothing(code: Seq<char>)
    requires
        forall|i: int|
            0 <= i < carbon_intensity_rows().len() ==> (#[trigger] carbon_intensity_rows()[i]).code
                != code,
    ensures
        carbon_intensity_of(code) is None,
{
    lemma_find_intensity_none(carbon_intensity_rows(), code);
}

proof fn lemma_find_intensity_none(rows: Seq<CarbonIntensityView>, code: Seq<char>)
    requires
        forall|i: int| 0 <= i < rows.len() ==> (#[trigger] rows[i]).code != code,
    ensures
        find_intensity(rows, code) is None,
    decreases rows.len(),
{
    if rows.len() > 0 {
        lemma_find_intensity_none(rows.drop_first(), code);
    }
}

/// A code that no row of the hardware profile table has finds nothing, so
/// the fallback applies to it.
pub proof fn law_unknown_profile_finds_nothing(code: Seq<char>)
    requires
        forall|i: int|
            0 <= i < hardware_profile_rows().len() ==> (#[trigger] hardware_profile_rows()[i]).code
                != code,
    ensures
        hardware_profile_of(code) is None,
{
    lemma_find_profile_none(hardware_profile_rows(), code);
}

proof fn lemma_find_profile_none(rows: Seq<HardwareProfileView>, code: Seq<char>)
    requires
        forall|i: int| 0 <= i < rows.len() ==> (#[trigger] rows[i]).code != code,
    ensures
        find_profile(rows, code) is None,
    decreases rows.len(),
{
    if rows.len() > 0 {
        lemma_find_profile_none(rows.drop_first(), code);
    }
}

} // verus!
