//! Memory and swap pressure, as Linux shows it in procfs.

use vstd::prelude::*;

use crate::digits::{parse_u64, parsed_u64};
use crate::modules::counter::{capped_product, capped_sum, growth, multiply_capped};
use crate::pipeline::provider::ProviderError;
use crate::pipeline::sample::{
    attributes_of, gives, gives_for, has_attribute, no_attributes, one_attribute, ratio, samples_of,
    share, Measure, Ratio, Sample, SampleValue, SampleView,
};
use crate::split::{cut_once, lines, split_lines, split_once, split_words, texts, words};
use crate::text::{blank, chars_of, is_blank, spells, text_of};
use crate::text_map::TextMap;
use crate::time::Timestamp;

verus! {

/// Sample name for physical memory bytes, split by the `system.memory.state`
/// attribute (`total`, `used`, `available`, `free`, `cached`).
pub const MEMORY_USAGE_SAMPLE: &'static str = "system.memory.usage";

/// Sample name for the fraction of memory that is not available.
pub const MEMORY_UTILIZATION_SAMPLE: &'static str = "system.memory.utilization";

/// Sample name for swap bytes, split by the `system.linux.memory.swap.state`
/// attribute (`total`, `used`, `free`).
pub const SWAP_USAGE_SAMPLE: &'static str = "system.linux.memory.swap.usage";

/// Sample name for the fraction of swap currently used.
pub const SWAP_UTILIZATION_SAMPLE: &'static str = "system.linux.memory.swap.utilization";

/// Sample name for swap I/O bytes, split by the
/// `system.linux.memory.swap.direction` attribute (`in`, `out`).
pub const SWAP_IO_SAMPLE: &'static str = "system.linux.memory.swap.io";

/// Attribute carrying the memory usage state.
pub const MEMORY_STATE_ATTRIBUTE: &'static str = "system.memory.state";

/// Attribute carrying the swap usage state.
pub const SWAP_STATE_ATTRIBUTE: &'static str = "system.linux.memory.swap.state";

/// Attribute carrying the swap I/O direction.
pub const SWAP_DIRECTION_ATTRIBUTE: &'static str = "system.linux.memory.swap.direction";

/// Where Linux shows memory figures.
pub const MEMINFO_PATH: &'static str = "/proc/meminfo";

/// Where Linux shows paging counters.
pub const VMSTAT_PATH: &'static str = "/proc/vmstat";

// ---------------------------------------------------------------------------
// Errors
// ---------------------------------------------------------------------------

/// Errors returned while collecting memory pressure samples.
#[derive(Debug, PartialEq, Eq)]
pub enum MemoryError {
    /// A proc file could not be read.
    ReadProc {
        /// Proc path that failed.
        path: &'static str,
        /// What the operating system said.
        source: String,
    },
    /// A required proc field was missing.
    MissingField {
        /// Proc file path.
        path: &'static str,
        /// Missing field name.
        field: &'static str,
    },
    /// A proc field could not be parsed.
    InvalidField {
        /// Proc file path.
        path: &'static str,
        /// Field name.
        field: String,
        /// Raw value.
        value: String,
    },
}

/// What a [`MemoryError`] says.
pub enum MemoryErrorView {
    ReadProc { path: Seq<char>, source: Seq<char> },
    MissingField { path: Seq<char>, field: Seq<char> },
    InvalidField { path: Seq<char>, field: Seq<char>, value: Seq<char> },
}

impl View for MemoryError {
    type V = MemoryErrorView;

    open spec fn view(&self) -> MemoryErrorView {
        match self {
            MemoryError::ReadProc { path, source } => MemoryErrorView::ReadProc {
                path: path@,
                source: source@,
            },
            MemoryError::MissingField { path, field } => MemoryErrorView::MissingField {
                path: path@,
                field: field@,
            },
            MemoryError::InvalidField { path, field, value } => MemoryErrorView::InvalidField {
                path: path@,
                field: field@,
                value: value@,
            },
        }
    }
}

/// The message of a fault, for people.
pub open spec fn memory_error_message(e: MemoryErrorView) -> Seq<char> {
    match e {
        MemoryErrorView::ReadProc { path, source } => "failed to read "@ + path + ": "@ + source,
        MemoryErrorView::MissingField { path, field } => "missing required field "@ + field
            + " in "@ + path,
        MemoryErrorView::InvalidField { path, field, value } => "invalid value for field "@ + field
            + " in "@ + path + ": "@ + value,
    }
}

impl MemoryError {
    /// The message of the error, for people.
    pub fn message(&self) -> (r: String)
        ensures
            r@ == memory_error_message(self@),
    {
        match self {
            MemoryError::ReadProc { path, source } => "failed to read ".to_string().concat(
                *path,
            ).concat(": ").concat(source.as_str()),
            MemoryError::MissingField {
                path,
                field,
            } => "missing required field ".to_string().concat(*field).concat(" in ").concat(*path),
            MemoryError::InvalidField {
                path,
                field,
                value,
            } => "invalid value for field ".to_string().concat(field.as_str()).concat(
                " in ",
            ).concat(*path).concat(": ").concat(value.as_str()),
        }
    }
}

// ---------------------------------------------------------------------------
// Memory figures
// ---------------------------------------------------------------------------

/// What a line of a procfs file says.
pub enum ProcLine {
    /// Nothing of interest.
    Nothing,
    /// The value of a field.
    Field(Seq<char>, u64),
    /// A field whose value is no number.
    Invalid(Seq<char>, Seq<char>),
}

/// What a line of memory figures says: a name, a colon, and a number of
/// kibibytes, which is taken in bytes.
pub open spec fn kib_line(line: Seq<char>) -> ProcLine {
    match split_once(line, seq![':']) {
        Some((name, rest)) => if is_blank(line) || words(rest).len() == 0 {
            ProcLine::Nothing
        } else {
            match parsed_u64(words(rest)[0]) {
                Some(value) => ProcLine::Field(name, capped_product(value, 1024)),
                None => ProcLine::Invalid(name, words(rest)[0]),
            }
        },
        None => ProcLine::Nothing,
    }
}

/// The fields that lines of memory figures give, the last value of each; or the
/// first field whose value is no number.
pub open spec fn kib_fields(path: Seq<char>, list: Seq<Seq<char>>) -> Result<
    Map<Seq<char>, u64>,
    MemoryErrorView,
>
    decreases list.len(),
{
    if list.len() == 0 {
        Ok(Map::empty())
    } else {
        match kib_fields(path, list.drop_last()) {
            Ok(fields) => match kib_line(list.last()) {
                ProcLine::Nothing => Ok(fields),
                ProcLine::Field(name, value) => Ok(fields.insert(name, value)),
                ProcLine::Invalid(field, value) => Err(
                    MemoryErrorView::InvalidField { path, field, value },
                ),
            },
            Err(e) => Err(e),
        }
    }
}

proof fn lemma_kib_fields_prefix(path: Seq<char>, list: Seq<Seq<char>>, n: int)
    requires
        0 <= n <= list.len(),
        kib_fields(path, list.take(n)) is Err,
    ensures
        kib_fields(path, list) == kib_fields(path, list.take(n)),
    decreases list.len(),
{
    if n == list.len() {
        assert(list.take(n) =~= list);
    } else {
        assert(list.drop_last().take(n) =~= list.take(n));
        lemma_kib_fields_prefix(path, list.drop_last(), n);
    }
}

/// Reads lines of memory figures.
pub fn parse_kib_fields(path: &'static str, contents: &str) -> (r: Result<
    TextMap<u64>,
    MemoryError,
>)
    ensures
        match r {
            Ok(fields) => kib_fields(path@, lines(contents@)) == Ok::<
                Map<Seq<char>, u64>,
                MemoryErrorView,
            >(fields@),
            Err(e) => kib_fields(path@, lines(contents@)) == Err::<
                Map<Seq<char>, u64>,
                MemoryErrorView,
            >(e@),
        },
{
    let chars = chars_of(contents);
    let list = split_lines(chars.as_slice());
    let colon: Vec<char> = vec![':'];
    let n: usize = list.len();
    let ghost all = lines(contents@);
    let mut fields: TextMap<u64> = TextMap::new();
    assert(colon@ =~= seq![':']);
    assert(all.take(0) =~= Seq::<Seq<char>>::empty());
    for i in 0..n
        invariant
            n == list@.len(),
            colon@ == seq![':'],
            all == lines(contents@),
            all == texts(list@),
            kib_fields(path@, all.take(i as int)) == Ok::<Map<Seq<char>, u64>, MemoryErrorView>(
                fields@,
            ),
    {
        let line = list[i];
        assert(all[i as int] == line@);
        assert(all.take(i + 1).drop_last() =~= all.take(i as int));
        assert(all.take(i + 1).last() == line@);
        if let Some((name, rest)) = cut_once(line, colon.as_slice()) {
            let values = split_words(rest);
            if !blank(line) && values.len() > 0 {
                let raw = values[0];
                assert(words(rest@)[0] == raw@) by {
                    assert(texts(values@)[0] == raw@);
                }
                match parse_u64(raw) {
                    Some(kib) => {
                        fields.insert(text_of(name), multiply_capped(kib, 1024));
                    },
                    None => {
                        proof {
                            lemma_kib_fields_prefix(path@, all, i + 1);
                        }
                        return Err(
                            MemoryError::InvalidField {
                                path,
                                field: text_of(name),
                                value: text_of(raw),
                            },
                        );
                    },
                }
            }
        }
    }
    assert(all.take(n as int) =~= all);
    Ok(fields)
}

/// The memory figures of a host.
#[derive(Clone, Copy, Debug, PartialEq, Eq, Structural)]
pub struct MemInfo {
    /// Total physical memory in bytes.
    pub total_bytes: u64,
    /// Kernel-estimated bytes available without swapping.
    pub available_bytes: u64,
    /// Completely free memory bytes.
    pub free_bytes: u64,
    /// Cache bytes that can usually be reclaimed.
    pub cached_bytes: u64,
    /// Total configured swap bytes.
    pub swap_total_bytes: u64,
    /// Free swap bytes.
    pub swap_free_bytes: u64,
}

/// The first of some names that a map does not hold.
pub open spec fn first_missing(fields: Map<Seq<char>, u64>, names: Seq<Seq<char>>) -> Option<
    Seq<char>,
>
    decreases names.len(),
{
    if names.len() == 0 {
        None
    } else if !fields.contains_key(names[0]) {
        Some(names[0])
    } else {
        first_missing(fields, names.skip(1))
    }
}

/// The fields that memory figures must hold, in the order they are asked for.
pub open spec fn meminfo_names() -> Seq<Seq<char>> {
    seq!["MemTotal"@, "MemAvailable"@, "MemFree"@, "Cached"@, "SwapTotal"@, "SwapFree"@]
}

/// The memory figures that fields give. Reclaimable slab memory counts as
/// cache, where it is shown.
pub open spec fn meminfo_of(fields: Map<Seq<char>, u64>) -> MemInfo {
    MemInfo {
        total_bytes: fields["MemTotal"@],
        available_bytes: fields["MemAvailable"@],
        free_bytes: fields["MemFree"@],
        cached_bytes: capped_sum(
            fields["Cached"@],
            if fields.contains_key("SReclaimable"@) {
                fields["SReclaimable"@]
            } else {
                0
            },
        ),
        swap_total_bytes: fields["SwapTotal"@],
        swap_free_bytes: fields["SwapFree"@],
    }
}

/// The memory figures that the contents of the memory file give, or what is
/// wrong with them.
pub open spec fn meminfo(contents: Seq<char>) -> Result<MemInfo, MemoryErrorView> {
    match kib_fields(MEMINFO_PATH@, lines(contents)) {
        Ok(fields) => match first_missing(fields, meminfo_names()) {
            None => Ok(meminfo_of(fields)),
            Some(field) => Err(MemoryErrorView::MissingField { path: MEMINFO_PATH@, field }),
        },
        Err(e) => Err(e),
    }
}

/// Looks a field up that must be there.
pub fn required_field(fields: &TextMap<u64>, path: &'static str, field: &'static str) -> (r: Result<
    u64,
    MemoryError,
>)
    ensures
        match r {
            Ok(value) => fields@.contains_key(field@) && value == fields@[field@],
            Err(e) => !fields@.contains_key(field@) && e@ == (MemoryErrorView::MissingField {
                path: path@,
                field: field@,
            }),
        },
{
    match fields.get(field) {
        Some(value) => Ok(*value),
        None => Err(MemoryError::MissingField { path, field }),
    }
}

proof fn lemma_meminfo_names(fields: Map<Seq<char>, u64>)
    ensures
        first_missing(fields, meminfo_names()) == (if !fields.contains_key("MemTotal"@) {
            Some("MemTotal"@)
        } else if !fields.contains_key("MemAvailable"@) {
            Some("MemAvailable"@)
        } else if !fields.contains_key("MemFree"@) {
            Some("MemFree"@)
        } else if !fields.contains_key("Cached"@) {
            Some("Cached"@)
        } else if !fields.contains_key("SwapTotal"@) {
            Some("SwapTotal"@)
        } else if !fields.contains_key("SwapFree"@) {
            Some("SwapFree"@)
        } else {
            None
        }),
{
    reveal_with_fuel(first_missing, 7);
}

/// Reads the contents of the memory file.
pub fn parse_meminfo(contents: &str) -> (r: Result<MemInfo, MemoryError>)
    ensures
        match r {
            Ok(info) => meminfo(contents@) == Ok::<MemInfo, MemoryErrorView>(info),
            Err(e) => meminfo(contents@) == Err::<MemInfo, MemoryErrorView>(e@),
        },
{
    let fields = parse_kib_fields(MEMINFO_PATH, contents)?;
    proof {
        lemma_meminfo_names(fields@);
    }
    let total_bytes: u64 = required_field(&fields, MEMINFO_PATH, "MemTotal")?;
    let available_bytes: u64 = required_field(&fields, MEMINFO_PATH, "MemAvailable")?;
    let free_bytes: u64 = required_field(&fields, MEMINFO_PATH, "MemFree")?;
    let cached: u64 = required_field(&fields, MEMINFO_PATH, "Cached")?;
    let reclaimable: u64 = match fields.get("SReclaimable") {
        Some(value) => *value,
        None => 0,
    };
    let swap_total_bytes: u64 = required_field(&fields, MEMINFO_PATH, "SwapTotal")?;
    let swap_free_bytes: u64 = required_field(&fields, MEMINFO_PATH, "SwapFree")?;
    Ok(
        MemInfo {
            total_bytes,
            available_bytes,
            free_bytes,
            cached_bytes: cached.saturating_add(reclaimable),
            swap_total_bytes,
            swap_free_bytes,
        },
    )
}

// ---------------------------------------------------------------------------
// Swap counters
// ---------------------------------------------------------------------------

/// How many pages a host has swapped since it was booted.
#[derive(Clone, Copy, Debug, PartialEq, Eq, Structural)]
pub struct SwapCounters {
    /// Pages swapped in.
    pub in_pages: u64,
    /// Pages swapped out.
    pub out_pages: u64,
}

/// What a line of paging counters says: a name and a number, of which only the
/// two swap counters are of interest.
pub open spec fn vmstat_line(line: Seq<char>) -> ProcLine {
    let parts = words(line);
    if parts.len() < 2 || (parts[0] != "pswpin"@ && parts[0] != "pswpout"@) {
        ProcLine::Nothing
    } else {
        match parsed_u64(parts[1]) {
            Some(value) => ProcLine::Field(parts[0], value),
            None => ProcLine::Invalid(parts[0], parts[1]),
        }
    }
}

/// The swap counters that lines of paging counters give, the last value of each;
/// or the first whose value is no number.
pub open spec fn swap_found(list: Seq<Seq<char>>) -> Result<
    (Option<u64>, Option<u64>),
    MemoryErrorView,
>
    decreases list.len(),
{
    if list.len() == 0 {
        Ok((None, None))
    } else {
        match swap_found(list.drop_last()) {
            Ok((in_pages, out_pages)) => match vmstat_line(list.last()) {
                ProcLine::Nothing => Ok((in_pages, out_pages)),
                ProcLine::Field(name, value) => if name == "pswpin"@ {
                    Ok((Some(value), out_pages))
                } else {
                    Ok((in_pages, Some(value)))
                },
                ProcLine::Invalid(field, value) => Err(
                    MemoryErrorView::InvalidField { path: VMSTAT_PATH@, field, value },
                ),
            },
            Err(e) => Err(e),
        }
    }
}

/// The swap counters that the contents of the paging file give, or what is wrong
/// with them.
pub open spec fn swap_counters(contents: Seq<char>) -> Result<SwapCounters, MemoryErrorView> {
    match swap_found(lines(contents)) {
        Ok((Some(in_pages), Some(out_pages))) => Ok(SwapCounters { in_pages, out_pages }),
        Ok((None, _)) => Err(
            MemoryErrorView::MissingField { path: VMSTAT_PATH@, field: "pswpin"@ },
        ),
        Ok((_, None)) => Err(
            MemoryErrorView::MissingField { path: VMSTAT_PATH@, field: "pswpout"@ },
        ),
        Err(e) => Err(e),
    }
}

proof fn lemma_swap_found_prefix(list: Seq<Seq<char>>, n: int)
    requires
        0 <= n <= list.len(),
        swap_found(list.take(n)) is Err,
    ensures
        swap_found(list) == swap_found(list.take(n)),
    decreases list.len(),
{
    if n == list.len() {
        assert(list.take(n) =~= list);
    } else {
        assert(list.drop_last().take(n) =~= list.take(n));
        lemma_swap_found_prefix(list.drop_last(), n);
    }
}

/// Reads the contents of the paging file.
pub fn parse_vmstat_swap(contents: &str) -> (r: Result<SwapCounters, MemoryError>)
    ensures
        match r {
            Ok(swap) => swap_counters(contents@) == Ok::<SwapCounters, MemoryErrorView>(swap),
            Err(e) => swap_counters(contents@) == Err::<SwapCounters, MemoryErrorView>(e@),
        },
{
    let chars = chars_of(contents);
    let list = split_lines(chars.as_slice());
    let n: usize = list.len();
    let ghost all = lines(contents@);
    let mut in_pages: Option<u64> = None;
    let mut out_pages: Option<u64> = None;
    assert(all.take(0) =~= Seq::<Seq<char>>::empty());
    for i in 0..n
        invariant
            n == list@.len(),
            all == lines(contents@),
            all == texts(list@),
            swap_found(all.take(i as int)) == Ok::<(Option<u64>, Option<u64>), MemoryErrorView>(
                (in_pages, out_pages),
            ),
    {
        let line = list[i];
        assert(all[i as int] == line@);
        assert(all.take(i + 1).drop_last() =~= all.take(i as int));
        assert(all.take(i + 1).last() == line@);
        let parts = split_words(line);
        if parts.len() >= 2 {
            let name = parts[0];
            let raw = parts[1];
            assert(words(line@)[0] == name@) by {
                assert(texts(parts@)[0] == name@);
            }
            assert(words(line@)[1] == raw@) by {
                assert(texts(parts@)[1] == raw@);
            }
            let is_in: bool = spells(name, "pswpin");
            if is_in || spells(name, "pswpout") {
                match parse_u64(raw) {
                    Some(value) => {
                        if is_in {
                            in_pages = Some(value);
                        } else {
                            out_pages = Some(value);
                        }
                    },
                    None => {
                        proof {
                            lemma_swap_found_prefix(all, i + 1);
                        }
                        return Err(
                            MemoryError::InvalidField {
                                path: VMSTAT_PATH,
                                field: text_of(name),
                                value: text_of(raw),
                            },
                        );
                    },
                }
            }
        }
    }
    assert(all.take(n as int) =~= all);
    match (in_pages, out_pages) {
        (Some(in_pages), Some(out_pages)) => Ok(SwapCounters { in_pages, out_pages }),
        (None, _) => Err(MemoryError::MissingField { path: VMSTAT_PATH, field: "pswpin" }),
        (Some(_), None) => Err(MemoryError::MissingField { path: VMSTAT_PATH, field: "pswpout" }),
    }
}

// ---------------------------------------------------------------------------
// Samples
// ---------------------------------------------------------------------------

/// Host memory and swap pressure for one collection interval.
#[derive(Clone, Copy, Debug, PartialEq, Eq, Structural)]
pub struct MemorySample {
    /// Total physical memory in bytes.
    pub total_bytes: u64,
    /// Kernel-estimated bytes available without swapping.
    pub available_bytes: u64,
    /// Bytes currently used, computed as total minus available.
    pub used_bytes: u64,
    /// Completely free memory bytes.
    pub free_bytes: u64,
    /// Cache bytes that can usually be reclaimed.
    pub cached_bytes: u64,
    /// Total configured swap bytes.
    pub swap_total_bytes: u64,
    /// Free swap bytes.
    pub swap_free_bytes: u64,
    /// Used swap bytes.
    pub swap_used_bytes: u64,
    /// Fraction of total memory that is not available.
    pub used_ratio: Ratio,
    /// Fraction of total swap currently used.
    pub swap_used_ratio: Ratio,
    /// Bytes swapped in during this interval.
    pub swap_in_bytes: u64,
    /// Bytes swapped out during this interval.
    pub swap_out_bytes: u64,
}

/// The memory pressure that figures and two readings of the swap counters show.
pub open spec fn memory_pressure(
    info: MemInfo,
    swap: SwapCounters,
    previous: SwapCounters,
    page_size_bytes: u64,
) -> MemorySample {
    let used = growth(info.total_bytes, info.available_bytes);
    let swap_used = growth(info.swap_total_bytes, info.swap_free_bytes);
    MemorySample {
        total_bytes: info.total_bytes,
        available_bytes: info.available_bytes,
        used_bytes: used,
        free_bytes: info.free_bytes,
        cached_bytes: info.cached_bytes,
        swap_total_bytes: info.swap_total_bytes,
        swap_free_bytes: info.swap_free_bytes,
        swap_used_bytes: swap_used,
        used_ratio: share(used, info.total_bytes),
        swap_used_ratio: share(swap_used, info.swap_total_bytes),
        swap_in_bytes: capped_product(growth(swap.in_pages, previous.in_pages), page_size_bytes),
        swap_out_bytes: capped_product(growth(swap.out_pages, previous.out_pages), page_size_bytes),
    }
}

/// Puts figures and two readings of the swap counters together.
pub fn sample_from_proc(
    meminfo: MemInfo,
    swap: SwapCounters,
    previous_swap: SwapCounters,
    page_size_bytes: u64,
) -> (r: MemorySample)
    ensures
        r == memory_pressure(meminfo, swap, previous_swap, page_size_bytes),
{
    let used_bytes: u64 = meminfo.total_bytes.saturating_sub(meminfo.available_bytes);
    let swap_used_bytes: u64 = meminfo.swap_total_bytes.saturating_sub(meminfo.swap_free_bytes);
    MemorySample {
        total_bytes: meminfo.total_bytes,
        available_bytes: meminfo.available_bytes,
        used_bytes,
        free_bytes: meminfo.free_bytes,
        cached_bytes: meminfo.cached_bytes,
        swap_total_bytes: meminfo.swap_total_bytes,
        swap_free_bytes: meminfo.swap_free_bytes,
        swap_used_bytes,
        used_ratio: ratio(used_bytes, meminfo.total_bytes),
        swap_used_ratio: ratio(swap_used_bytes, meminfo.swap_total_bytes),
        swap_in_bytes: multiply_capped(
            swap.in_pages.saturating_sub(previous_swap.in_pages),
            page_size_bytes,
        ),
        swap_out_bytes: multiply_capped(
            swap.out_pages.saturating_sub(previous_swap.out_pages),
            page_size_bytes,
        ),
    }
}

/// The size of a memory page, from `rustix::param::page_size`.
///
/// Nothing is claimed of the size: it is that of the running machine.
#[verifier::external_body]
fn host_page_size() -> (r: u64) {
    rustix::param::page_size() as u64
}

/// The contents of a file, or what the operating system said where it could not
/// be read.
pub open spec fn file_view(file: Result<&str, String>) -> Result<Seq<char>, Seq<char>> {
    match file {
        Ok(contents) => Ok(contents@),
        Err(source) => Err(source@),
    }
}

/// What the memory file says, or why it says nothing.
pub open spec fn meminfo_read(file: Result<Seq<char>, Seq<char>>) -> Result<
    MemInfo,
    MemoryErrorView,
> {
    match file {
        Ok(contents) => meminfo(contents),
        Err(source) => Err(MemoryErrorView::ReadProc { path: MEMINFO_PATH@, source }),
    }
}

/// What the paging file says, or why it says nothing.
pub open spec fn swap_read(file: Result<Seq<char>, Seq<char>>) -> Result<
    SwapCounters,
    MemoryErrorView,
> {
    match file {
        Ok(contents) => swap_counters(contents),
        Err(source) => Err(MemoryErrorView::ReadProc { path: VMSTAT_PATH@, source }),
    }
}

/// What is collected from the two files, given the last reading of the swap
/// counters: the sample and the new reading, or what is wrong. Without a last
/// reading nothing counts as swapped.
pub open spec fn memory_collected(
    meminfo_file: Result<Seq<char>, Seq<char>>,
    vmstat_file: Result<Seq<char>, Seq<char>>,
    previous: Option<SwapCounters>,
    page_size_bytes: u64,
) -> Result<(MemorySample, SwapCounters), MemoryErrorView> {
    match meminfo_read(meminfo_file) {
        Ok(info) => match swap_read(vmstat_file) {
            Ok(swap) => Ok(
                (
                    memory_pressure(
                        info,
                        swap,
                        match previous {
                            Some(last) => last,
                            None => swap,
                        },
                        page_size_bytes,
                    ),
                    swap,
                ),
            ),
            Err(e) => Err(e),
        },
        Err(e) => Err(e),
    }
}

/// Turns swap counters into what was swapped between readings.
#[derive(Debug)]
pub struct MemoryCollector {
    page_size_bytes: u64,
    previous_swap: Option<SwapCounters>,
}

impl MemoryCollector {
    /// The size of a memory page.
    pub closed spec fn page_size(&self) -> u64 {
        self.page_size_bytes
    }

    /// The last reading of the swap counters.
    pub closed spec fn previous(&self) -> Option<SwapCounters> {
        self.previous_swap
    }

    /// Creates a memory collector using the host page size.
    pub fn new() -> (r: Self)
        ensures
            r.previous() is None,
    {
        MemoryCollector::with_page_size(host_page_size())
    }

    /// Creates a memory collector using a given page size.
    pub fn with_page_size(page_size_bytes: u64) -> (r: Self)
        ensures
            r.previous() is None,
            r.page_size() == page_size_bytes,
    {
        MemoryCollector { page_size_bytes, previous_swap: None }
    }

    /// Collects one memory pressure sample from the contents of the memory file
    /// and of the paging file. A failure leaves the collector as it is.
    pub fn collect(
        &mut self,
        meminfo_file: Result<&str, String>,
        vmstat_file: Result<&str, String>,
    ) -> (r: Result<MemorySample, MemoryError>)
        ensures
            final(self).page_size() == old(self).page_size(),
            match memory_collected(
                file_view(meminfo_file),
                file_view(vmstat_file),
                old(self).previous(),
                old(self).page_size(),
            ) {
                Ok((sample, swap)) => {
                    &&& r == Ok::<MemorySample, MemoryError>(sample)
                    &&& final(self).previous() == Some(swap)
                },
                Err(fault) => {
                    &&& r matches Err(e) && e@ == fault
                    &&& final(self).previous() == old(self).previous()
                },
            },
    {
        let meminfo = match meminfo_file {
            Ok(contents) => match parse_meminfo(contents) {
                Ok(info) => info,
                Err(e) => {
                    return Err(e);
                },
            },
            Err(source) => {
                return Err(MemoryError::ReadProc { path: MEMINFO_PATH, source });
            },
        };
        let swap = match vmstat_file {
            Ok(contents) => match parse_vmstat_swap(contents) {
                Ok(swap) => swap,
                Err(e) => {
                    return Err(e);
                },
            },
            Err(source) => {
                return Err(MemoryError::ReadProc { path: VMSTAT_PATH, source });
            },
        };
        let previous = match self.previous_swap {
            Some(last) => last,
            None => swap,
        };
        self.previous_swap = Some(swap);
        Ok(sample_from_proc(meminfo, swap, previous, self.page_size_bytes))
    }
}

impl Default for MemoryCollector {
    fn default() -> (r: Self)
        ensures
            r.previous() is None,
    {
        MemoryCollector::new()
    }
}

/// A pipeline sample with one attribute.
pub open spec fn state_sample(
    name: Seq<char>,
    value: SampleValue,
    key: Seq<char>,
    state: Seq<char>,
    timestamp: Timestamp,
) -> SampleView {
    SampleView {
        name,
        value,
        attributes: Map::<Seq<char>, Seq<char>>::empty().insert(key, state),
        timestamp,
    }
}

/// A pipeline sample without attributes.
pub open spec fn plain_sample(name: Seq<char>, value: SampleValue, timestamp: Timestamp)
    -> SampleView {
    SampleView { name, value, attributes: Map::<Seq<char>, Seq<char>>::empty(), timestamp }
}

/// The pipeline samples of one memory sample: the bytes in each state and the
/// share in use, of memory and of swap, and what was swapped.
pub open spec fn memory_sample_views(sample: MemorySample, t: Timestamp) -> Seq<SampleView> {
    let memory = |state: Seq<char>, bytes: u64|
        state_sample(
            MEMORY_USAGE_SAMPLE@,
            SampleValue::GaugeU64(bytes),
            MEMORY_STATE_ATTRIBUTE@,
            state,
            t,
        );
    let swap = |state: Seq<char>, bytes: u64|
        state_sample(
            SWAP_USAGE_SAMPLE@,
            SampleValue::GaugeU64(bytes),
            SWAP_STATE_ATTRIBUTE@,
            state,
            t,
        );
    let swapped = |direction: Seq<char>, bytes: u64|
        state_sample(
            SWAP_IO_SAMPLE@,
            SampleValue::Counter(bytes),
            SWAP_DIRECTION_ATTRIBUTE@,
            direction,
            t,
        );
    seq![
        memory("total"@, sample.total_bytes),
        memory("used"@, sample.used_bytes),
        memory("available"@, sample.available_bytes),
        memory("free"@, sample.free_bytes),
        memory("cached"@, sample.cached_bytes),
        plain_sample(
            MEMORY_UTILIZATION_SAMPLE@,
            SampleValue::GaugeF64(Measure::Ratio(sample.used_ratio)),
            t,
        ),
        swap("total"@, sample.swap_total_bytes),
        swap("used"@, sample.swap_used_bytes),
        swap("free"@, sample.swap_free_bytes),
        plain_sample(
            SWAP_UTILIZATION_SAMPLE@,
            SampleValue::GaugeF64(Measure::Ratio(sample.swap_used_ratio)),
            t,
        ),
        swapped("in"@, sample.swap_in_bytes),
        swapped("out"@, sample.swap_out_bytes),
    ]
}

/// Builds the single state or direction attribute shared by grouped samples.
pub fn state_attributes(key: &str, value: &str) -> (r: TextMap<String>)
    ensures
        attributes_of(r@) == Map::<Seq<char>, Seq<char>>::empty().insert(key@, value@),
{
    one_attribute(key, value)
}

fn push_state(
    samples: &mut Vec<Sample>,
    name: &str,
    value: SampleValue,
    key: &str,
    state: &str,
    timestamp: Timestamp,
)
    ensures
        samples_of(final(samples)@) == samples_of(old(samples)@).push(
            state_sample(name@, value, key@, state@, timestamp),
        ),
{
    let ghost before = samples@;
    let sample = Sample {
        name: name.to_string(),
        value,
        attributes: state_attributes(key, state),
        timestamp,
    };
    samples.push(sample);
    assert(samples_of(before.push(sample)) =~= samples_of(before).push(sample@));
}

fn push_plain(samples: &mut Vec<Sample>, name: &str, value: SampleValue, timestamp: Timestamp)
    ensures
        samples_of(final(samples)@) == samples_of(old(samples)@).push(
            plain_sample(name@, value, timestamp),
        ),
{
    let ghost before = samples@;
    let sample = Sample { name: name.to_string(), value, attributes: no_attributes(), timestamp };
    samples.push(sample);
    assert(samples_of(before.push(sample)) =~= samples_of(before).push(sample@));
}

fn push_memory(samples: &mut Vec<Sample>, state: &str, bytes: u64, timestamp: Timestamp)
    ensures
        samples_of(final(samples)@) == samples_of(old(samples)@).push(
            state_sample(
                MEMORY_USAGE_SAMPLE@,
                SampleValue::GaugeU64(bytes),
                MEMORY_STATE_ATTRIBUTE@,
                state@,
                timestamp,
            ),
        ),
{
    push_state(
        samples,
        MEMORY_USAGE_SAMPLE,
        SampleValue::GaugeU64(bytes),
        MEMORY_STATE_ATTRIBUTE,
        state,
        timestamp,
    );
}

fn push_swap(samples: &mut Vec<Sample>, state: &str, bytes: u64, timestamp: Timestamp)
    ensures
        samples_of(final(samples)@) == samples_of(old(samples)@).push(
            state_sample(
                SWAP_USAGE_SAMPLE@,
                SampleValue::GaugeU64(bytes),
                SWAP_STATE_ATTRIBUTE@,
                state@,
                timestamp,
            ),
        ),
{
    push_state(
        samples,
        SWAP_USAGE_SAMPLE,
        SampleValue::GaugeU64(bytes),
        SWAP_STATE_ATTRIBUTE,
        state,
        timestamp,
    );
}

fn push_swapped(samples: &mut Vec<Sample>, direction: &str, bytes: u64, timestamp: Timestamp)
    ensures
        samples_of(final(samples)@) == samples_of(old(samples)@).push(
            state_sample(
                SWAP_IO_SAMPLE@,
                SampleValue::Counter(bytes),
                SWAP_DIRECTION_ATTRIBUTE@,
                direction@,
                timestamp,
            ),
        ),
{
    push_state(
        samples,
        SWAP_IO_SAMPLE,
        SampleValue::Counter(bytes),
        SWAP_DIRECTION_ATTRIBUTE,
        direction,
        timestamp,
    );
}

/// Converts one [`MemorySample`] into neutral pipeline samples.
pub fn memory_samples(sample: &MemorySample, timestamp: Timestamp) -> (r: Vec<Sample>)
    ensures
        samples_of(r@) == memory_sample_views(*sample, timestamp),
{
    let mut samples: Vec<Sample> = Vec::new();
    assert(samples_of(samples@) =~= Seq::<SampleView>::empty());
    push_memory(&mut samples, "total", sample.total_bytes, timestamp);
    push_memory(&mut samples, "used", sample.used_bytes, timestamp);
    push_memory(&mut samples, "available", sample.available_bytes, timestamp);
    push_memory(&mut samples, "free", sample.free_bytes, timestamp);
    push_memory(&mut samples, "cached", sample.cached_bytes, timestamp);
    push_plain(
        &mut samples,
        MEMORY_UTILIZATION_SAMPLE,
        SampleValue::GaugeF64(Measure::Ratio(sample.used_ratio)),
        timestamp,
    );
    push_swap(&mut samples, "total", sample.swap_total_bytes, timestamp);
    push_swap(&mut samples, "used", sample.swap_used_bytes, timestamp);
    push_swap(&mut samples, "free", sample.swap_free_bytes, timestamp);
    push_plain(
        &mut samples,
        SWAP_UTILIZATION_SAMPLE,
        SampleValue::GaugeF64(Measure::Ratio(sample.swap_used_ratio)),
        timestamp,
    );
    push_swapped(&mut samples, "in", sample.swap_in_bytes, timestamp);
    push_swapped(&mut samples, "out", sample.swap_out_bytes, timestamp);
    assert(samples_of(samples@) =~= memory_sample_views(*sample, timestamp));
    samples
}

/// Memory pressure data provider.
#[derive(Debug)]
pub struct MemoryProvider {
    collector: MemoryCollector,
}

impl MemoryProvider {
    /// The size of a memory page.
    pub closed spec fn page_size(&self) -> u64 {
        self.collector.page_size()
    }

    /// The last reading of the swap counters.
    pub closed spec fn previous(&self) -> Option<SwapCounters> {
        self.collector.previous()
    }

    /// Creates a provider reading host memory pressure.
    pub fn new() -> (r: Self)
        ensures
            r.previous() is None,
    {
        MemoryProvider { collector: MemoryCollector::new() }
    }

    /// Creates a provider around a collector.
    pub fn with_collector(collector: MemoryCollector) -> (r: Self)
        ensures
            r.previous() == collector.previous(),
            r.page_size() == collector.page_size(),
    {
        MemoryProvider { collector }
    }

    /// Stable provider name.
    pub fn name(&self) -> (r: &'static str)
        ensures
            r@ == "memory"@,
    {
        "memory"
    }

    /// Collects the samples of one memory pressure sample.
    pub fn collect(
        &mut self,
        meminfo_file: Result<&str, String>,
        vmstat_file: Result<&str, String>,
        timestamp: Timestamp,
    ) -> (r: Result<Vec<Sample>, ProviderError>)
        ensures
            final(self).page_size() == old(self).page_size(),
            match memory_collected(
                file_view(meminfo_file),
                file_view(vmstat_file),
                old(self).previous(),
                old(self).page_size(),
            ) {
                Ok((sample, swap)) => {
                    &&& r matches Ok(samples) && samples_of(samples@) == memory_sample_views(
                        sample,
                        timestamp,
                    )
                    &&& final(self).previous() == Some(swap)
                },
                Err(fault) => {
                    &&& r matches Err(e) && e.provider@ == "memory"@ && e.source@
                        == memory_error_message(fault)
                    &&& final(self).previous() == old(self).previous()
                },
            },
    {
        match self.collector.collect(meminfo_file, vmstat_file) {
            Ok(sample) => Ok(memory_samples(&sample, timestamp)),
            Err(e) => Err(ProviderError::new("memory", e.message())),
        }
    }
}

impl Default for MemoryProvider {
    fn default() -> (r: Self)
        ensures
            r.previous() is None,
    {
        MemoryProvider::new()
    }
}

// ---------------------------------------------------------------------------
// Laws
// ---------------------------------------------------------------------------

/// The first collection reports nothing swapped.
pub proof fn law_first_collection_reports_no_swap(
    meminfo_file: Result<Seq<char>, Seq<char>>,
    vmstat_file: Result<Seq<char>, Seq<char>>,
    page_size_bytes: u64,
)
    requires
        memory_collected(meminfo_file, vmstat_file, None, page_size_bytes) is Ok,
    ensures
        ({
            let sample = memory_collected(
                meminfo_file,
                vmstat_file,
                None,
                page_size_bytes,
            )->Ok_0.0;
            sample.swap_in_bytes == 0 && sample.swap_out_bytes == 0
        }),
{
    assert(0 * page_size_bytes == 0) by (nonlinear_arith);
}

/// The memory and the swap in use are never more than there is of them.
pub proof fn law_used_is_at_most_total(
    info: MemInfo,
    swap: SwapCounters,
    previous: SwapCounters,
    page_size_bytes: u64,
)
    ensures
        ({
            let sample = memory_pressure(info, swap, previous, page_size_bytes);
            &&& sample.used_bytes <= sample.total_bytes
            &&& sample.swap_used_bytes <= sample.swap_total_bytes
            &&& sample.used_ratio.numerator <= sample.used_ratio.denominator
            &&& sample.swap_used_ratio.numerator <= sample.swap_used_ratio.denominator
            &&& info.available_bytes <= info.total_bytes ==> sample.used_bytes
                + sample.available_bytes == sample.total_bytes
            &&& info.swap_free_bytes <= info.swap_total_bytes ==> sample.swap_used_bytes
                + sample.swap_free_bytes == sample.swap_total_bytes
        }),
{
}

/// Lines of memory figures that say nothing do not matter, wherever they stand.
pub proof fn law_other_lines_do_not_matter(
    path: Seq<char>,
    before: Seq<Seq<char>>,
    line: Seq<char>,
    after: Seq<Seq<char>>,
)
    requires
        kib_line(line) is Nothing,
    ensures
        kib_fields(path, before.push(line) + after) == kib_fields(path, before + after),
    decreases after.len(),
{
    if after.len() == 0 {
        assert(before.push(line) + after =~= before.push(line));
        assert(before.push(line).drop_last() =~= before);
        assert(before + after =~= before);
    } else {
        law_other_lines_do_not_matter(path, before, line, after.drop_last());
        assert((before.push(line) + after).drop_last() =~= before.push(line) + after.drop_last());
        assert((before + after).drop_last() =~= before + after.drop_last());
    }
}

/// Lines of paging counters that say nothing do not matter, wherever they stand.
pub proof fn law_other_counters_do_not_matter(
    before: Seq<Seq<char>>,
    line: Seq<char>,
    after: Seq<Seq<char>>,
)
    requires
        vmstat_line(line) is Nothing,
    ensures
        swap_found(before.push(line) + after) == swap_found(before + after),
    decreases after.len(),
{
    if after.len() == 0 {
        assert(before.push(line) + after =~= before.push(line));
        assert(before.push(line).drop_last() =~= before);
        assert(before + after =~= before);
    } else {
        law_other_counters_do_not_matter(before, line, after.drop_last());
        assert((before.push(line) + after).drop_last() =~= before.push(line) + after.drop_last());
        assert((before + after).drop_last() =~= before + after.drop_last());
    }
}

/// Each metric of a memory sample carries the figure that its name and state stand
/// for, at the moment of the sample.
pub proof fn law_each_memory_metric_carries_its_figure(sample: MemorySample, t: Timestamp)
    ensures
        ({
            let list = memory_sample_views(sample, t);
            let usage = "system.memory.usage"@;
            let state = "system.memory.state"@;
            let swap = "system.linux.memory.swap.usage"@;
            let swap_state = "system.linux.memory.swap.state"@;
            let swap_io = "system.linux.memory.swap.io"@;
            let direction = "system.linux.memory.swap.direction"@;
            &&& list.len() == 12
            &&& gives_for(list, usage, state, "total"@, SampleValue::GaugeU64(sample.total_bytes))
            &&& gives_for(list, usage, state, "used"@, SampleValue::GaugeU64(sample.used_bytes))
            &&& gives_for(
                list,
                usage,
                state,
                "available"@,
                SampleValue::GaugeU64(sample.available_bytes),
            )
            &&& gives_for(list, usage, state, "free"@, SampleValue::GaugeU64(sample.free_bytes))
            &&& gives_for(
                list,
                usage,
                state,
                "cached"@,
                SampleValue::GaugeU64(sample.cached_bytes),
            )
            &&& gives(
                list,
                "system.memory.utilization"@,
                SampleValue::GaugeF64(Measure::Ratio(sample.used_ratio)),
            )
            &&& gives_for(
                list,
                swap,
                swap_state,
                "total"@,
                SampleValue::GaugeU64(sample.swap_total_bytes),
            )
            &&& gives_for(
                list,
                swap,
                swap_state,
                "used"@,
                SampleValue::GaugeU64(sample.swap_used_bytes),
            )
            &&& gives_for(
                list,
                swap,
                swap_state,
                "free"@,
                SampleValue::GaugeU64(sample.swap_free_bytes),
            )
            &&& gives(
                list,
                "system.linux.memory.swap.utilization"@,
                SampleValue::GaugeF64(Measure::Ratio(sample.swap_used_ratio)),
            )
            &&& gives_for(
                list,
                swap_io,
                direction,
                "in"@,
                SampleValue::Counter(sample.swap_in_bytes),
            )
            &&& gives_for(
                list,
                swap_io,
                direction,
                "out"@,
                SampleValue::Counter(sample.swap_out_bytes),
            )
            &&& forall|i: int|
                0 <= i < list.len() ==> {
                    &&& (#[trigger] list[i]).timestamp == t
                    &&& list[i].attributes.dom().len() <= 1
                }
        }),
{
    reveal_strlit("system.memory.usage");
    reveal_strlit("system.memory.utilization");
    reveal_strlit("system.linux.memory.swap.usage");
    reveal_strlit("system.linux.memory.swap.utilization");
    reveal_strlit("system.linux.memory.swap.io");
    reveal_strlit("total");
    reveal_strlit("used");
    reveal_strlit("available");
    reveal_strlit("free");
    reveal_strlit("cached");
    reveal_strlit("in");
    reveal_strlit("out");
    assert("system.memory.usage"@.len() == 19);
    assert("system.memory.utilization"@.len() == 25);
    assert("system.linux.memory.swap.usage"@.len() == 30);
    assert("system.linux.memory.swap.utilization"@.len() == 36);
    assert("system.linux.memory.swap.io"@.len() == 27);
    assert("total"@[0] == 't');
    assert("used"@[0] == 'u');
    assert("available"@[0] == 'a');
    assert("free"@[0] == 'f');
    assert("cached"@[0] == 'c');
    assert("in"@[0] == 'i');
    assert("out"@[0] == 'o');
    let list = memory_sample_views(sample, t);
    let usage = "system.memory.usage"@;
    let state = "system.memory.state"@;
    let swap = "system.linux.memory.swap.usage"@;
    let swap_state = "system.linux.memory.swap.state"@;
    let swap_io = "system.linux.memory.swap.io"@;
    let direction = "system.linux.memory.swap.direction"@;
    assert(has_attribute(list[0], usage, state, "total"@));
    assert(has_attribute(list[1], usage, state, "used"@));
    assert(has_attribute(list[2], usage, state, "available"@));
    assert(has_attribute(list[3], usage, state, "free"@));
    assert(has_attribute(list[4], usage, state, "cached"@));
    assert(list[5].name == "system.memory.utilization"@);
    assert(has_attribute(list[6], swap, swap_state, "total"@));
    assert(has_attribute(list[7], swap, swap_state, "used"@));
    assert(has_attribute(list[8], swap, swap_state, "free"@));
    assert(list[9].name == "system.linux.memory.swap.utilization"@);
    assert(has_attribute(list[10], swap_io, direction, "in"@));
    assert(has_attribute(list[11], swap_io, direction, "out"@));
}

/// A memory sample has the figures it is made of; what is used is what is not
/// available, as a share of the total; and what was swapped is what each counter
/// grew by since the last reading, in bytes.
pub proof fn law_memory_sample_is_of_its_figures(
    info: MemInfo,
    swap: SwapCounters,
    previous: SwapCounters,
    page_size_bytes: u64,
)
    ensures
        ({
            let sample = memory_pressure(info, swap, previous, page_size_bytes);
            let swapped_in = swap.in_pages - previous.in_pages;
            let swapped_out = swap.out_pages - previous.out_pages;
            &&& sample.total_bytes == info.total_bytes
            &&& sample.available_bytes == info.available_bytes
            &&& info.available_bytes <= info.total_bytes ==> sample.used_bytes
                + info.available_bytes == info.total_bytes
            &&& sample.free_bytes == info.free_bytes
            &&& sample.cached_bytes == info.cached_bytes
            &&& sample.swap_total_bytes == info.swap_total_bytes
            &&& sample.swap_free_bytes == info.swap_free_bytes
            &&& info.swap_free_bytes <= info.swap_total_bytes ==> sample.swap_used_bytes
                + info.swap_free_bytes == info.swap_total_bytes
            &&& info.total_bytes > 0 ==> sample.used_ratio == (Ratio {
                numerator: sample.used_bytes,
                denominator: info.total_bytes,
            })
            &&& info.total_bytes == 0 ==> sample.used_ratio == (Ratio {
                numerator: 0,
                denominator: 1,
            })
            &&& info.swap_total_bytes > 0 ==> sample.swap_used_ratio == (Ratio {
                numerator: sample.swap_used_bytes,
                denominator: info.swap_total_bytes,
            })
            &&& info.swap_total_bytes == 0 ==> sample.swap_used_ratio == (Ratio {
                numerator: 0,
                denominator: 1,
            })
            &&& 0 <= swapped_in && swapped_in * page_size_bytes <= u64::MAX ==> sample.swap_in_bytes
                == swapped_in * page_size_bytes
            &&& 0 <= swapped_in && swapped_in * page_size_bytes > u64::MAX ==> sample.swap_in_bytes
                == u64::MAX
            &&& 0 <= swapped_out && swapped_out * page_size_bytes <= u64::MAX
                ==> sample.swap_out_bytes == swapped_out * page_size_bytes
            &&& 0 <= swapped_out && swapped_out * page_size_bytes > u64::MAX
                ==> sample.swap_out_bytes == u64::MAX
        }),
{
    let a = swap.in_pages - previous.in_pages;
    let b = swap.out_pages - previous.out_pages;
    if 0 <= a {
        assert(0 <= a * page_size_bytes) by (nonlinear_arith)
            requires
                0 <= a,
        ;
    }
    if 0 <= b {
        assert(0 <= b * page_size_bytes) by (nonlinear_arith)
            requires
                0 <= b,
        ;
    }
}

/// Where more is available than there is, or swap counters started anew, nothing
/// counts as used or swapped.
pub proof fn law_figures_that_do_not_fit_count_as_nothing(
    info: MemInfo,
    swap: SwapCounters,
    previous: SwapCounters,
    page_size_bytes: u64,
)
    ensures
        ({
            let sample = memory_pressure(info, swap, previous, page_size_bytes);
            &&& info.available_bytes > info.total_bytes ==> sample.used_bytes == 0
            &&& info.swap_free_bytes > info.swap_total_bytes ==> sample.swap_used_bytes == 0
            &&& swap.in_pages < previous.in_pages ==> sample.swap_in_bytes == 0
            &&& swap.out_pages < previous.out_pages ==> sample.swap_out_bytes == 0
        }),
{
    assert(0 * page_size_bytes == 0) by (nonlinear_arith);
}

/// A collection succeeds just where both files are understood; it then remembers
/// the swap counters that it read, and counts from those that were remembered.
pub proof fn law_swap_is_counted_from_the_last_collection(
    meminfo_file: Result<Seq<char>, Seq<char>>,
    vmstat_file: Result<Seq<char>, Seq<char>>,
    previous: Option<SwapCounters>,
    page_size_bytes: u64,
)
    ensures
        ({
            let r = memory_collected(meminfo_file, vmstat_file, previous, page_size_bytes);
            let info = meminfo_read(meminfo_file);
            let swap = swap_read(vmstat_file);
            &&& r is Ok <==> info is Ok && swap is Ok
            &&& r is Ok ==> r->Ok_0.1 == swap->Ok_0
            &&& r is Ok && previous is Some ==> r->Ok_0.0 == memory_pressure(
                info->Ok_0,
                swap->Ok_0,
                previous->0,
                page_size_bytes,
            )
            &&& r is Ok && previous is None ==> r->Ok_0.0 == memory_pressure(
                info->Ok_0,
                swap->Ok_0,
                swap->Ok_0,
                page_size_bytes,
            )
            &&& info is Err ==> r is Err && r->Err_0 == info->Err_0
            &&& info is Ok && swap is Err ==> r is Err && r->Err_0 == swap->Err_0
        }),
{
}

/// A file that cannot be read is named in the fault.
pub proof fn law_unreadable_file_is_named(source: Seq<char>)
    ensures
        meminfo_read(Err(source)) == Err::<MemInfo, MemoryErrorView>(
            MemoryErrorView::ReadProc { path: "/proc/meminfo"@, source },
        ),
        swap_read(Err(source)) == Err::<SwapCounters, MemoryErrorView>(
            MemoryErrorView::ReadProc { path: "/proc/vmstat"@, source },
        ),
{
}

/// One more line of memory figures gives its field the value it says, and leaves
/// the other fields alone; after a field that is no number nothing is read.
pub proof fn law_last_figure_of_a_field_counts(
    path: Seq<char>,
    list: Seq<Seq<char>>,
    line: Seq<char>,
)
    ensures
        kib_fields(path, Seq::empty()) == Ok::<Map<Seq<char>, u64>, MemoryErrorView>(Map::empty()),
        ({
            let before = kib_fields(path, list);
            let after = kib_fields(path, list.push(line));
            &&& before is Err ==> after == before
            &&& before is Ok ==> match kib_line(line) {
                ProcLine::Nothing => after == before,
                ProcLine::Invalid(field, value) => after == Err::<
                    Map<Seq<char>, u64>,
                    MemoryErrorView,
                >(MemoryErrorView::InvalidField { path, field, value }),
                ProcLine::Field(name, value) => {
                    &&& after is Ok
                    &&& after->Ok_0.contains_key(name)
                    &&& after->Ok_0[name] == value
                    &&& forall|other: Seq<char>|
                        other != name ==> {
                            &&& #[trigger] after->Ok_0.contains_key(other)
                                == before->Ok_0.contains_key(other)
                            &&& before->Ok_0.contains_key(other) ==> after->Ok_0[other]
                                == before->Ok_0[other]
                        }
                },
            }
        }),
{
    assert(list.push(line).drop_last() =~= list);
    assert(list.push(line).last() == line);
}

/// Memory figures are in kibibytes, and are taken in bytes.
pub proof fn law_figures_are_taken_in_bytes(line: Seq<char>, name: Seq<char>, rest: Seq<char>)
    requires
        split_once(line, seq![':']) == Some((name, rest)),
        !is_blank(line),
        words(rest).len() > 0,
    ensures
        parsed_u64(words(rest)[0]) matches Some(kib) ==> {
            &&& kib * 1024 <= u64::MAX ==> kib_line(line) == ProcLine::Field(
                name,
                (kib * 1024) as u64,
            )
            &&& kib * 1024 > u64::MAX ==> kib_line(line) == ProcLine::Field(name, u64::MAX)
        },
        parsed_u64(words(rest)[0]) is None ==> kib_line(line) == ProcLine::Invalid(
            name,
            words(rest)[0],
        ),
{
}

/// The memory figures of a host are those of the fields of their names, with
/// reclaimable slab memory among the cache; and the first field that is not there
/// is the fault.
pub proof fn law_figures_are_those_of_their_fields(contents: Seq<char>)
    requires
        kib_fields("/proc/meminfo"@, lines(contents)) is Ok,
    ensures
        ({
            let fields = kib_fields("/proc/meminfo"@, lines(contents))->Ok_0;
            let r = meminfo(contents);
            let all = fields.contains_key("MemTotal"@) && fields.contains_key("MemAvailable"@)
                && fields.contains_key("MemFree"@) && fields.contains_key("Cached"@)
                && fields.contains_key("SwapTotal"@) && fields.contains_key("SwapFree"@);
            &&& r is Ok <==> all
            &&& r matches Ok(info) ==> {
                &&& info.total_bytes == fields["MemTotal"@]
                &&& info.available_bytes == fields["MemAvailable"@]
                &&& info.free_bytes == fields["MemFree"@]
                &&& info.swap_total_bytes == fields["SwapTotal"@]
                &&& info.swap_free_bytes == fields["SwapFree"@]
                &&& !fields.contains_key("SReclaimable"@) ==> info.cached_bytes
                    == fields["Cached"@]
                &&& fields.contains_key("SReclaimable"@) && fields["Cached"@]
                    + fields["SReclaimable"@] <= u64::MAX ==> info.cached_bytes
                    == fields["Cached"@] + fields["SReclaimable"@]
            }
            &&& r matches Err(e) ==> {
                let field = e->MissingField_field;
                let total = fields.contains_key("MemTotal"@);
                let available = total && fields.contains_key("MemAvailable"@);
                let free = available && fields.contains_key("MemFree"@);
                let cached = free && fields.contains_key("Cached"@);
                let swap = cached && fields.contains_key("SwapTotal"@);
                &&& e is MissingField
                &&& e->MissingField_path == "/proc/meminfo"@
                &&& !fields.contains_key(field)
                &&& !total ==> field == "MemTotal"@
                &&& total && !available ==> field == "MemAvailable"@
                &&& available && !free ==> field == "MemFree"@
                &&& free && !cached ==> field == "Cached"@
                &&& cached && !swap ==> field == "SwapTotal"@
                &&& swap ==> field == "SwapFree"@
            }
        }),
{
    lemma_meminfo_names(kib_fields("/proc/meminfo"@, lines(contents))->Ok_0);
}

/// Of two lines of paging counters for one counter the later counts, and neither
/// counter changes the other.
pub proof fn law_last_counter_counts(list: Seq<Seq<char>>, line: Seq<char>)
    requires
        swap_found(list) is Ok,
        words(line).len() >= 2,
        parsed_u64(words(line)[1]) is Some,
    ensures
        swap_found(Seq::empty()) == Ok::<(Option<u64>, Option<u64>), MemoryErrorView>((None, None)),
        words(line)[0] == "pswpin"@ ==> swap_found(list.push(line)) == Ok::<
            (Option<u64>, Option<u64>),
            MemoryErrorView,
        >((parsed_u64(words(line)[1]), swap_found(list)->Ok_0.1)),
        words(line)[0] == "pswpout"@ ==> swap_found(list.push(line)) == Ok::<
            (Option<u64>, Option<u64>),
            MemoryErrorView,
        >((swap_found(list)->Ok_0.0, parsed_u64(words(line)[1]))),
        words(line)[0] != "pswpin"@ && words(line)[0] != "pswpout"@ ==> swap_found(list.push(line))
            == swap_found(list),
{
    reveal_strlit("pswpin");
    reveal_strlit("pswpout");
    assert("pswpin"@.len() == 6);
    assert("pswpout"@.len() == 7);
    assert(list.push(line).drop_last() =~= list);
    assert(list.push(line).last() == line);
}

/// Swap counters are read where both are there; one that is missing is the fault.
pub proof fn law_both_swap_counters_are_needed(contents: Seq<char>)
    requires
        swap_found(lines(contents)) is Ok,
    ensures
        ({
            let (in_pages, out_pages) = swap_found(lines(contents))->Ok_0;
            let r = swap_counters(contents);
            &&& r is Ok <==> in_pages is Some && out_pages is Some
            &&& r is Ok ==> Some(r->Ok_0.in_pages) == in_pages && Some(r->Ok_0.out_pages)
                == out_pages
            &&& in_pages is None ==> r->Err_0 == (MemoryErrorView::MissingField {
                path: "/proc/vmstat"@,
                field: "pswpin"@,
            })
            &&& in_pages is Some && out_pages is None ==> r->Err_0
                == (MemoryErrorView::MissingField { path: "/proc/vmstat"@, field: "pswpout"@ })
        }),
{
}

/// A line without a colon, or with nothing after it, says nothing of memory.
pub proof fn law_lines_without_figures_say_nothing(line: Seq<char>)
    ensures
        split_once(line, seq![':']) is None ==> kib_line(line) is Nothing,
        split_once(line, seq![':']) matches Some((name, rest)) ==> (words(rest).len() == 0
            ==> kib_line(line) is Nothing),
        is_blank(line) ==> kib_line(line) is Nothing,
{
}

/// A swap counter that is no number is the fault, and names itself and its value.
pub proof fn law_swap_counter_that_is_no_number_is_named(list: Seq<Seq<char>>, line: Seq<char>)
    requires
        swap_found(list) is Ok,
        words(line).len() >= 2,
        words(line)[0] == "pswpin"@ || words(line)[0] == "pswpout"@,
        parsed_u64(words(line)[1]) is None,
    ensures
        swap_found(list.push(line)) == Err::<(Option<u64>, Option<u64>), MemoryErrorView>(
            MemoryErrorView::InvalidField {
                path: "/proc/vmstat"@,
                field: words(line)[0],
                value: words(line)[1],
            },
        ),
{
    assert(list.push(line).drop_last() =~= list);
    assert(list.push(line).last() == line);
}

/// What is found missing is missing, and all that is asked for before it is there.
pub proof fn law_first_missing_field_is_reported(
    fields: Map<Seq<char>, u64>,
    names: Seq<Seq<char>>,
)
    ensures
        first_missing(fields, names) is None <==> forall|i: int|
            0 <= i < names.len() ==> fields.contains_key(#[trigger] names[i]),
        first_missing(fields, names) matches Some(name) ==> !fields.contains_key(name) && exists|
            i: int,
        |
            0 <= i < names.len() && #[trigger] names[i] == name && forall|k: int|
                0 <= k < i ==> fields.contains_key(#[trigger] names[k]),
    decreases names.len(),
{
    if names.len() > 0 {
        let rest = names.skip(1);
        law_first_missing_field_is_reported(fields, rest);
        if !fields.contains_key(names[0]) {
            assert(names[0] == first_missing(fields, names)->0);
        } else if first_missing(fields, rest) is Some {
            let name = first_missing(fields, rest)->0;
            let i = choose|i: int|
                0 <= i < rest.len() && #[trigger] rest[i] == name && forall|k: int|
                    0 <= k < i ==> fields.contains_key(#[trigger] rest[k]);
            assert(names[i + 1] == name);
            assert forall|k: int| 0 <= k < i + 1 implies fields.contains_key(
                #[trigger] names[k],
            ) by {
                if k > 0 {
                    assert(names[k] == rest[k - 1]);
                }
            }
        } else {
            assert forall|k: int| 0 <= k < names.len() implies fields.contains_key(
                #[trigger] names[k],
            ) by {
                if k > 0 {
                    assert(names[k] == rest[k - 1]);
                }
            }
        }
    }
}

} // verus!
