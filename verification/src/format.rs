//! Text that the dashboard shows for sizes, badges and ranks.
use vstd::prelude::*;

use crate::records::CatalogModel;
use crate::text::{decimal, decimal_chars, digit_char, equals, push_char, two_digits, uppercase};
use crate::text::ascii_upper;

verus! {

pub const KIB: u64 = 1_024;

pub const MIB: u64 = 1_048_576;

pub const GIB: u64 = 1_073_741_824;

/// `whole.hh suffix`: the whole units of `value`, then two truncated decimal places.
pub open spec fn scaled_chars(value: nat, unit: nat, suffix: Seq<char>) -> Seq<char> {
    decimal_chars(value / unit) + "."@ + two_digits((value % unit) * 100 / unit) + " "@ + suffix
}

/// A byte count in the largest binary unit that it reaches, with two truncated decimals.
pub open spec fn human_bytes_chars(value: nat) -> Seq<char> {
    if value >= GIB {
        scaled_chars(value, GIB as nat, "GiB"@)
    } else if value >= MIB {
        scaled_chars(value, MIB as nat, "MiB"@)
    } else if value >= KIB {
        scaled_chars(value, KIB as nat, "KiB"@)
    } else {
        decimal_chars(value) + " B"@
    }
}

/// Appends the two-digit spelling of `n`, below one hundred, to `s`.
fn push_two_digits(s: &mut String, n: u64)
    requires
        n < 100,
    ensures
        final(s)@ == old(s)@ + two_digits(n as nat),
{
    let tens = (48 + n / 10) as u8 as char;
    let ones = (48 + n % 10) as u8 as char;
    proof {
        assert(tens == digit_char((n / 10) as nat));
        assert(ones == digit_char((n % 10) as nat));
    }
    push_char(s, tens);
    push_char(s, ones);
    proof {
        assert(final(s)@ =~= old(s)@ + two_digits(n as nat));
    }
}

/// `value` in whole `unit`s and two truncated hundredths, then a space and `suffix`.
pub fn scaled(value: u64, unit: u64, suffix: &str) -> (text: String)
    requires
        0 < unit <= u64::MAX / 100,
    ensures
        text@ == scaled_chars(value as nat, unit as nat, suffix@),
{
    let whole = value / unit;
    let hundredths = value % unit * 100 / unit;
    proof {
        assert(value % unit < unit);
        assert((value % unit) * 100 < unit * 100) by (nonlinear_arith)
            requires
                value % unit < unit,
        ;
        assert(((value % unit) * 100) / (unit as int) < 100) by (nonlinear_arith)
            requires
                (value % unit) * 100 < unit * 100,
                unit > 0,
        ;
    }
    let mut text = decimal(whole);
    text.append(".");
    push_two_digits(&mut text, hundredths);
    text.append(" ");
    text.append(suffix);
    text
}

/// A byte count in the largest binary unit that it reaches, such as `512.00 MiB`.
pub fn human_bytes(value: u64) -> (text: String)
    ensures
        text@ == human_bytes_chars(value as nat),
{
    if value >= GIB {
        scaled(value, GIB, "GiB")
    } else if value >= MIB {
        scaled(value, MIB, "MiB")
    } else if value >= KIB {
        scaled(value, KIB, "KiB")
    } else {
        let mut text = decimal(value);
        text.append(" B");
        text
    }
}

/// A byte count in GiB with two truncated decimals, such as `1.50 GiB`.
pub fn gib_text(value: u64) -> (text: String)
    ensures
        text@ == scaled_chars(value as nat, GIB as nat, "GiB"@),
{
    scaled(value, GIB, "GiB")
}

/// A byte count in GiB with two truncated decimals, where bytes beyond `u64::MAX / 100`
/// count as that bound.
pub open spec fn binary_size_chars(bytes: nat) -> Seq<char> {
    let hundredths = (if bytes * 100 <= u64::MAX { bytes * 100 } else { u64::MAX as nat }) / (
    GIB as nat);
    decimal_chars(hundredths / 100) + "."@ + two_digits(hundredths % 100) + " GiB"@
}

/// A memory size in GiB with two decimals, such as `1.50 GiB`.
pub fn binary_size(bytes: u64) -> (text: String)
    ensures
        text@ == binary_size_chars(bytes as nat),
{
    let scaled_bytes = if bytes <= u64::MAX / 100 { bytes * 100 } else { u64::MAX };
    let hundredths = scaled_bytes / GIB;
    let mut text = decimal(hundredths / 100);
    text.append(".");
    push_two_digits(&mut text, hundredths % 100);
    text.append(" GiB");
    text
}

/// A byte count in GiB with one truncated decimal, such as `7.5`.
pub open spec fn gib_tenths_chars(bytes: nat) -> Seq<char> {
    decimal_chars(bytes / (GIB as nat)) + "."@ + decimal_chars((bytes % (GIB as nat)) * 10 / (
    GIB as nat))
}

/// A byte count in GiB with one truncated decimal and no unit, such as `7.5`.
pub fn gib(bytes: u64) -> (text: String)
    ensures
        text@ == gib_tenths_chars(bytes as nat),
{
    let whole = bytes / GIB;
    let tenth = bytes % GIB * 10 / GIB;
    let mut text = decimal(whole);
    text.append(".");
    let rest = decimal(tenth);
    text.append(rest.as_str());
    text
}

/// The badge that marks where a search result is stored locally, nine cells wide.
pub fn local_badge(source: &str) -> (badge: &'static str)
    ensures
        source@ == "mirmir"@ ==> badge@ == "MIRMIR   "@,
        source@ == "hf_cache"@ ==> badge@ == "HF CACHE "@,
        source@ != "mirmir"@ && source@ != "hf_cache"@ ==> badge@ == "         "@,
{
    proof {
        reveal_strlit("mirmir");
        reveal_strlit("hf_cache");
        assert("hf_cache"@.len() == 8);
        assert("mirmir"@.len() == 6);
        assert("hf_cache"@ != "mirmir"@);
    }
    if equals(source, "mirmir") {
        "MIRMIR   "
    } else if equals(source, "hf_cache") {
        "HF CACHE "
    } else {
        "         "
    }
}

/// The badge of a gated repository, empty for a public one.
pub fn gated_badge(gated: bool) -> (badge: &'static str)
    ensures
        gated ==> badge@ == "GATED "@,
        !gated ==> badge@ == ""@,
{
    if gated {
        "GATED "
    } else {
        ""
    }
}

/// Whether a search result is downloaded or present in a local cache.
pub open spec fn spec_is_local(model: CatalogModel) -> bool {
    model.downloaded || model.local_source@ == "mirmir"@ || model.local_source@ == "hf_cache"@
}

/// Whether a search result is downloaded or present in a local cache.
pub fn is_local(model: &CatalogModel) -> (local: bool)
    ensures
        local == spec_is_local(*model),
{
    model.downloaded || equals(model.local_source.as_str(), "mirmir") || equals(
        model.local_source.as_str(),
        "hf_cache",
    )
}

/// The upper-case weight format of a search result: its encoding, or its ecosystem when the
/// encoding is empty or unknown.
pub fn format_label(model: &CatalogModel) -> (label: String)
    ensures
        label@ == (if model.encoding@.len() == 0 || model.encoding@ == "Unknown"@ {
            model.ecosystem@
        } else {
            model.encoding@
        }).map_values(|c: char| ascii_upper(c)),
{
    if model.encoding.as_str().is_empty() || equals(model.encoding.as_str(), "Unknown") {
        uppercase(model.ecosystem.as_str())
    } else {
        uppercase(model.encoding.as_str())
    }
}

/// The caption under the count of loaded models.
pub fn loaded_detail(count: usize) -> (detail: &'static str)
    ensures
        count == 0 ==> detail@ == "no model ready"@,
        count == 1 ==> detail@ == "model ready"@,
        count > 1 ==> detail@ == "models ready"@,
{
    if count == 0 {
        "no model ready"
    } else if count == 1 {
        "model ready"
    } else {
        "models ready"
    }
}

/// The name of the cache that holds a model: Mirmir's own, or the shared Hugging Face cache.
pub fn source_name(managed: bool) -> (name: String)
    ensures
        managed ==> name@ == "MIRMIR"@,
        !managed ==> name@ == "HF CACHE"@,
{
    if managed {
        "MIRMIR".to_owned()
    } else {
        "HF CACHE".to_owned()
    }
}

/// Rank of a search result: supported before unknown compatibility, and within each,
/// fits, tight, unknown, does not fit; everything else last.
pub open spec fn spec_catalog_rank(compatibility: Seq<char>, memory_fit: Seq<char>) -> u8 {
    let base: int = if compatibility == "supported"@ {
        0
    } else if compatibility == "unknown"@ {
        4
    } else {
        -1
    };
    let offset: int = if memory_fit == "fits"@ {
        0
    } else if memory_fit == "tight"@ {
        1
    } else if memory_fit == "unknown"@ {
        2
    } else if memory_fit == "does_not_fit"@ {
        3
    } else {
        -1
    };
    if base < 0 || offset < 0 {
        8
    } else {
        (base + offset) as u8
    }
}

/// Rank of a search result by compatibility and memory fit, lower first.
pub fn catalog_rank(model: &CatalogModel) -> (rank: u8)
    ensures
        rank == spec_catalog_rank(model.compatibility@, model.memory_fit@),
        rank <= 8,
{
    let base: u8 = if equals(model.compatibility.as_str(), "supported") {
        0
    } else if equals(model.compatibility.as_str(), "unknown") {
        4
    } else {
        return 8;
    };
    let fit = model.memory_fit.as_str();
    if equals(fit, "fits") {
        base
    } else if equals(fit, "tight") {
        base + 1
    } else if equals(fit, "unknown") {
        base + 2
    } else if equals(fit, "does_not_fit") {
        base + 3
    } else {
        8
    }
}

/// Used memory: the total less what is available, and nothing when either is unknown.
pub fn used_memory(total: Option<u64>, available: Option<u64>) -> (used: Option<u64>)
    ensures
        used == (match (total, available) {
            (Some(t), Some(a)) => Some(if a <= t { (t - a) as u64 } else { 0 }),
            _ => None,
        }),
{
    match (total, available) {
        (Some(total), Some(available)) => Some(total.saturating_sub(available)),
        _ => None,
    }
}

/// Used memory in hundredths of a percent of the total, when the total is known and positive.
pub fn memory_basis_points(total: Option<u64>, available: Option<u64>) -> (points: Option<u32>)
    ensures
        points == (match (total, available) {
            (Some(t), Some(a)) => if t > 0 {
                Some((((if a <= t { t - a } else { 0 }) * 10_000) / (t as int)) as u32)
            } else {
                None
            },
            _ => None,
        }),
        points matches Some(p) ==> p <= 10_000,
{
    match (total, available) {
        (Some(total), Some(available)) => {
            if total == 0 {
                return None;
            }
            let used = total.saturating_sub(available);
            Some(ratio_points(used, total, 10_000) as u32)
        },
        _ => None,
    }
}

/// `part / whole` in units of `1 / scale`, truncated, for `part <= whole`.
fn ratio_points(part: u64, whole: u64, scale: u64) -> (points: u64)
    requires
        0 < whole,
        part <= whole,
        0 < scale <= 10_000,
    ensures
        points == (part * scale) / (whole as int),
        points <= scale,
{
    proof {
        assert((part as int) * (scale as int) <= u64::MAX * 10_000) by (nonlinear_arith)
            requires
                part <= u64::MAX,
                scale <= 10_000,
        ;
    }
    let wide = (part as u128) * (scale as u128) / (whole as u128);
    proof {
        assert((part as int) * (scale as int) <= (whole as int) * (scale as int)) by (nonlinear_arith)
            requires
                part <= whole,
                0 < scale,
        ;
        assert(((part as int) * (scale as int)) / (whole as int) <= scale) by (nonlinear_arith)
            requires
                (part as int) * (scale as int) <= (whole as int) * (scale as int),
                0 < whole,
        ;
    }
    wide as u64
}

/// Progress of `current` out of `total` in hundredths of a percent, capped at the total;
/// nothing is known without a positive total.
pub fn progress_basis_points(current: u64, total: Option<u64>) -> (points: u16)
    ensures
        points == (match total {
            Some(t) => if t > 0 {
                (((if current <= t { current } else { t }) * 10_000) / (t as int)) as u16
            } else {
                0
            },
            None => 0,
        }),
        points <= 10_000,
{
    match total {
        Some(total) => {
            if total == 0 {
                return 0;
            }
            let current = if current <= total { current } else { total };
            ratio_points(current, total, 10_000) as u16
        },
        None => 0,
    }
}

/// Progress of a download in tenths of a percent, capped at the total size.
pub fn transfer_tenths(downloaded: u64, total: u64) -> (tenths: u16)
    requires
        total > 0,
    ensures
        tenths == ((if downloaded <= total { downloaded } else { total }) * 1_000) / (total as int),
        tenths <= 1_000,
{
    let current = if downloaded <= total { downloaded } else { total };
    ratio_points(current, total, 1_000) as u16
}

/// Required memory as hundredths of a percent of the budget, capped at the whole budget;
/// zero when the budget is unknown or zero.
pub fn memory_fit_points(required: u64, budget: Option<u64>) -> (points: u16)
    ensures
        points == (match budget {
            Some(b) => if b > 0 {
                if required * 10_000 / (b as int) <= 10_000 {
                    (required * 10_000 / (b as int)) as u16
                } else {
                    10_000
                }
            } else {
                0
            },
            None => 0,
        }),
{
    match budget {
        Some(budget) => {
            if budget == 0 {
                return 0;
            }
            let wide = (required as u128) * 10_000 / (budget as u128);
            if wide <= 10_000 {
                wide as u16
            } else {
                10_000
            }
        },
        None => 0,
    }
}

/// The live token counts shown while requests run, such as ` · live 20p/6c`.
pub fn live_tokens(active_requests: u64, prompt_tokens: u64, completion_tokens: u64) -> (text:
    String)
    ensures
        active_requests == 0 ==> text@.len() == 0,
        active_requests > 0 ==> text@ == " · live "@ + decimal_chars(prompt_tokens as nat)
            + "p/"@ + decimal_chars(completion_tokens as nat) + "c"@,
{
    if active_requests == 0 {
        return String::new();
    }
    let mut text = " · live ".to_owned();
    text.append(decimal(prompt_tokens).as_str());
    text.append("p/");
    text.append(decimal(completion_tokens).as_str());
    text.append("c");
    text
}


/// Search results rank by compatibility, then memory fit: for supported and for unknown
/// compatibility, fits before tight before unknown before does not fit, every supported result
/// with a known fit before every result of unknown compatibility, the best rank zero, and
/// every other compatibility or fit last, at eight.
pub proof fn lemma_catalog_rank_order(compatibility: Seq<char>, memory_fit: Seq<char>)
    ensures
        spec_catalog_rank("supported"@, "fits"@) == 0,
        spec_catalog_rank("supported"@, "fits"@) < spec_catalog_rank("supported"@, "tight"@),
        spec_catalog_rank("supported"@, "tight"@) < spec_catalog_rank("supported"@, "unknown"@),
        spec_catalog_rank("supported"@, "unknown"@) < spec_catalog_rank("supported"@, "does_not_fit"@),
        spec_catalog_rank("supported"@, "does_not_fit"@) < spec_catalog_rank("unknown"@, "fits"@),
        spec_catalog_rank("unknown"@, "fits"@) < spec_catalog_rank("unknown"@, "tight"@),
        spec_catalog_rank("unknown"@, "tight"@) < spec_catalog_rank("unknown"@, "unknown"@),
        spec_catalog_rank("unknown"@, "unknown"@) < spec_catalog_rank("unknown"@, "does_not_fit"@),
        spec_catalog_rank("unknown"@, "does_not_fit"@) < 8,
        !(compatibility == "supported"@ || compatibility == "unknown"@) || !(memory_fit == "fits"@
            || memory_fit == "tight"@ || memory_fit == "unknown"@ || memory_fit == "does_not_fit"@)
            ==> spec_catalog_rank(compatibility, memory_fit) == 8,
{
    reveal_strlit("supported");
    reveal_strlit("unknown");
    reveal_strlit("fits");
    reveal_strlit("tight");
    reveal_strlit("does_not_fit");
    assert("supported"@.len() == 9 && "unknown"@.len() == 7);
    assert("fits"@.len() == 4 && "tight"@.len() == 5 && "does_not_fit"@.len() == 12);
}

} // verus!
