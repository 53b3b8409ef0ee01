//! File system capacity, by mount point.

use vstd::prelude::*;

use crate::config::bootstrap::{copy_optional, optional_text};
use crate::config::runtime::{copy_strings, strings, AgentRuntimeConfig};
use crate::modules::counter::{capped_product, growth, multiply_capped};
use crate::pipeline::provider::ProviderError;
use crate::pipeline::sample::{
    append_samples, attributes_of, copy_attributes, gives, gives_for, has_attribute, one_attribute,
    put_attribute, ratio, samples_of, share, Measure, Ratio, Sample, SampleValue, SampleView,
};
use crate::split::{
    cut_once, fields, law_split_undoes_join, lemma_split_nonempty, lines, split, split_lines,
    split_once, split_words, texts, words,
};
use crate::text::{blank, chars_of, is_blank, spells, text_of};
use crate::text_map::TextMap;
use crate::time::Timestamp;

verus! {

/// Sample name for total filesystem capacity in bytes.
pub const FILESYSTEM_LIMIT_SAMPLE: &'static str = "system.filesystem.limit";

/// Sample name for filesystem bytes, split by the `system.filesystem.state`
/// attribute (`used`, `free`, `reserved`).
pub const FILESYSTEM_USAGE_SAMPLE: &'static str = "system.filesystem.usage";

/// Sample name for the fraction of filesystem bytes currently used.
pub const FILESYSTEM_UTILIZATION_SAMPLE: &'static str = "system.filesystem.utilization";

/// Attribute carrying the mountpoint a sample was taken from.
pub const MOUNTPOINT_ATTRIBUTE: &'static str = "system.filesystem.mountpoint";

/// Attribute carrying the filesystem type, when known.
pub const FILESYSTEM_TYPE_ATTRIBUTE: &'static str = "system.filesystem.type";

/// Attribute carrying the mount mode (`ro`/`rw`), when known.
pub const FILESYSTEM_MODE_ATTRIBUTE: &'static str = "system.filesystem.mode";

/// Attribute carrying the usage state (`used`, `free`, `reserved`).
pub const FILESYSTEM_STATE_ATTRIBUTE: &'static str = "system.filesystem.state";

/// Where Linux lists the mounts that a process sees.
pub const MOUNTINFO_PATH: &'static str = "/proc/self/mountinfo";

// ---------------------------------------------------------------------------
// Errors
// ---------------------------------------------------------------------------

/// Errors returned while collecting filesystem samples.
#[derive(Debug, PartialEq, Eq)]
pub enum StorageError {
    /// Linux mountinfo could not be read.
    ReadMountInfo {
        /// Mountinfo path that failed to be read.
        path: &'static str,
        /// What the operating system said.
        source: String,
    },
    /// A mountinfo line did not match the expected Linux format.
    InvalidMountInfo(String),
    /// Filesystem statistics could not be read for a mountpoint.
    StatVfs {
        /// Mountpoint that failed to be sampled.
        mountpoint: String,
        /// What the operating system said.
        source: String,
    },
    /// All configured mountpoints failed to produce samples.
    NoFilesystemSamples,
}

/// What a [`StorageError`] says.
pub enum StorageErrorView {
    ReadMountInfo { path: Seq<char>, source: Seq<char> },
    InvalidMountInfo(Seq<char>),
    StatVfs { mountpoint: Seq<char>, source: Seq<char> },
    NoFilesystemSamples,
}

impl View for StorageError {
    type V = StorageErrorView;

    open spec fn view(&self) -> StorageErrorView {
        match self {
            StorageError::ReadMountInfo { path, source } => StorageErrorView::ReadMountInfo {
                path: path@,
                source: source@,
            },
            StorageError::InvalidMountInfo(line) => StorageErrorView::InvalidMountInfo(line@),
            StorageError::StatVfs { mountpoint, source } => StorageErrorView::StatVfs {
                mountpoint: mountpoint@,
                source: source@,
            },
            StorageError::NoFilesystemSamples => StorageErrorView::NoFilesystemSamples,
        }
    }
}

/// The message of a fault, for people.
pub open spec fn storage_error_message(e: StorageErrorView) -> Seq<char> {
    match e {
        StorageErrorView::ReadMountInfo { path, source } => "failed to read mount info from "@
            + path + ": "@ + source,
        StorageErrorView::InvalidMountInfo(line) => "invalid mountinfo line: "@ + line,
        StorageErrorView::StatVfs { mountpoint, source } => "failed to stat filesystem "@
            + mountpoint + ": "@ + source,
        StorageErrorView::NoFilesystemSamples =>
            "failed to collect any configured storage mount"@,
    }
}

impl StorageError {
    /// The message of the error, for people.
    pub fn message(&self) -> (r: String)
        ensures
            r@ == storage_error_message(self@),
    {
        match self {
            StorageError::ReadMountInfo {
                path,
                source,
            } => "failed to read mount info from ".to_string().concat(*path).concat(": ").concat(
                source.as_str(),
            ),
            StorageError::InvalidMountInfo(line) => "invalid mountinfo line: ".to_string().concat(
                line.as_str(),
            ),
            StorageError::StatVfs {
                mountpoint,
                source,
            } => "failed to stat filesystem ".to_string().concat(mountpoint.as_str()).concat(
                ": ",
            ).concat(source.as_str()),
            StorageError::NoFilesystemSamples =>
                "failed to collect any configured storage mount".to_string(),
        }
    }
}

// ---------------------------------------------------------------------------
// Escaped paths
// ---------------------------------------------------------------------------

/// An octal digit.
pub open spec fn is_octal(c: char) -> bool {
    '0' as u32 <= c as u32 <= '7' as u32
}

/// The number that three octal digits spell.
pub open spec fn octal_value(a: char, b: char, c: char) -> int {
    64 * (a as u32 - '0' as u32) + 8 * (b as u32 - '0' as u32) + (c as u32 - '0' as u32)
}

/// Whether a text starts with an escaped byte: a backslash and three octal
/// digits that spell a number below 256.
pub open spec fn starts_escaped(s: Seq<char>) -> bool {
    &&& s.len() >= 4
    &&& s[0] == '\\'
    &&& is_octal(s[1])
    &&& is_octal(s[2])
    &&& is_octal(s[3])
    &&& octal_value(s[1], s[2], s[3]) < 256
}

/// A path with each escaped byte put back. All else stays as it is.
pub open spec fn unescaped(s: Seq<char>) -> Seq<char>
    decreases s.len(),
{
    if s.len() == 0 {
        Seq::empty()
    } else if starts_escaped(s) {
        seq![octal_value(s[1], s[2], s[3]) as char] + unescaped(s.skip(4))
    } else {
        seq![s[0]] + unescaped(s.skip(1))
    }
}

/// Puts each escaped byte of a path back.
pub fn decode_chars(value: &[char]) -> (r: Vec<char>)
    ensures
        r@ == unescaped(value@),
{
    let n: usize = value.len();
    let mut output: Vec<char> = Vec::new();
    let mut i: usize = 0;
    assert(value@.skip(0) =~= value@);
    assert(output@ + unescaped(value@) =~= unescaped(value@));
    while i < n
        invariant
            n == value@.len(),
            i <= n,
            output@ + unescaped(value@.skip(i as int)) == unescaped(value@),
        decreases n - i,
    {
        let ghost rest = value@.skip(i as int);
        let ghost before = output@;
        assert(rest.skip(1) =~= value@.skip(i + 1));
        assert(rest[0] == value@[i as int]);
        if value[i] == '\\' && n - i >= 4 {
            let a: u32 = value[i + 1] as u32;
            let b: u32 = value[i + 2] as u32;
            let c: u32 = value[i + 3] as u32;
            assert(rest[1] == value@[i + 1]);
            assert(rest[2] == value@[i + 2]);
            assert(rest[3] == value@[i + 3]);
            if 48 <= a && a < 56 && 48 <= b && b < 56 && 48 <= c && c < 56 {
                let code: u32 = 64 * (a - 48) + 8 * (b - 48) + (c - 48);
                if code < 256 {
                    assert(rest.skip(4) =~= value@.skip(i + 4));
                    let byte: u8 = code as u8;
                    output.push(byte as char);
                    assert(output@ + unescaped(rest.skip(4)) =~= before + unescaped(rest));
                    i = i + 4;
                    continue;
                }
            }
        }
        output.push(value[i]);
        assert(output@ + unescaped(rest.skip(1)) =~= before + unescaped(rest));
        i = i + 1;
    }
    assert(value@.skip(n as int) =~= Seq::<char>::empty());
    assert(output@ + Seq::<char>::empty() =~= output@);
    output
}

/// Puts each escaped byte of a path back.
pub fn decode_mountinfo_path(value: &str) -> (r: String)
    ensures
        r@ == unescaped(value@),
{
    let chars = chars_of(value);
    let decoded = decode_chars(chars.as_slice());
    text_of(decoded.as_slice())
}

/// How the kernel escapes a character of a path.
pub open spec fn escaped_char(c: char) -> Seq<char> {
    if c == ' ' {
        seq!['\\', '0', '4', '0']
    } else if c == '\t' {
        seq!['\\', '0', '1', '1']
    } else if c == '\n' {
        seq!['\\', '0', '1', '2']
    } else if c == '\\' {
        seq!['\\', '1', '3', '4']
    } else {
        seq![c]
    }
}

/// A path as the kernel lists it: spaces, tabs, line ends and backslashes stand
/// escaped.
pub open spec fn escaped(path: Seq<char>) -> Seq<char>
    decreases path.len(),
{
    if path.len() == 0 {
        Seq::empty()
    } else {
        escaped_char(path[0]) + escaped(path.skip(1))
    }
}

/// A path that the kernel escaped is read as it was.
pub proof fn law_escaped_path_is_read_back(path: Seq<char>)
    ensures
        unescaped(escaped(path)) == path,
    decreases path.len(),
{
    if path.len() > 0 {
        let c = path[0];
        let rest = escaped(path.skip(1));
        let whole = escaped_char(c) + rest;
        law_escaped_path_is_read_back(path.skip(1));
        if c == ' ' || c == '\t' || c == '\n' || c == '\\' {
            assert(whole[0] == '\\');
            assert(whole[1] == escaped_char(c)[1]);
            assert(whole[2] == escaped_char(c)[2]);
            assert(whole[3] == escaped_char(c)[3]);
            assert(whole.skip(4) =~= rest);
            assert(starts_escaped(whole));
        } else {
            assert(whole[0] == c);
            assert(whole.skip(1) =~= rest);
        }
        assert(unescaped(whole) =~= seq![c] + path.skip(1));
        assert(seq![c] + path.skip(1) =~= path);
    }
}

// ---------------------------------------------------------------------------
// Mounts
// ---------------------------------------------------------------------------

/// What is known of a mount.
#[derive(Debug, PartialEq, Eq)]
pub struct MountInfo {
    /// File system type.
    pub filesystem_type: String,
    /// Mount mode, `rw` or `ro`, where it is one of these.
    pub mode: Option<String>,
}

/// What a [`MountInfo`] says.
pub struct MountInfoView {
    pub filesystem_type: Seq<char>,
    pub mode: Option<Seq<char>>,
}

impl View for MountInfo {
    type V = MountInfoView;

    open spec fn view(&self) -> MountInfoView {
        MountInfoView {
            filesystem_type: self.filesystem_type@,
            mode: optional_text(self.mode),
        }
    }
}

/// What a line of the mount list says.
pub enum MountLine {
    /// Nothing: it is blank.
    Blank,
    /// What is mounted where.
    Mount(Seq<char>, MountInfoView),
    /// It is no such line.
    Invalid,
}

/// The mode that mount options start with.
pub open spec fn mount_mode(options: Seq<char>) -> Option<Seq<char>> {
    let first = split(options, ',')[0];
    if first == "rw"@ || first == "ro"@ {
        Some(first)
    } else {
        None
    }
}

/// What a line of the mount list says. The mount point is its fifth field, the
/// mount options its sixth, and the file system type the first field after the
/// separating hyphen.
pub open spec fn mount_line(line: Seq<char>) -> MountLine {
    if is_blank(line) {
        MountLine::Blank
    } else {
        match split_once(line, seq![' ', '-', ' ']) {
            Some((before, after)) => if words(before).len() < 6 || words(after).len() == 0 {
                MountLine::Invalid
            } else {
                MountLine::Mount(
                    unescaped(words(before)[4]),
                    MountInfoView {
                        filesystem_type: words(after)[0],
                        mode: mount_mode(words(before)[5]),
                    },
                )
            },
            None => MountLine::Invalid,
        }
    }
}

/// The mounts that lines of the mount list give, the last of those at one mount
/// point; or the first line that is no such line.
pub open spec fn mounts_listed(list: Seq<Seq<char>>) -> Result<
    Map<Seq<char>, MountInfoView>,
    StorageErrorView,
>
    decreases list.len(),
{
    if list.len() == 0 {
        Ok(Map::empty())
    } else {
        match mounts_listed(list.drop_last()) {
            Ok(mounts) => match mount_line(list.last()) {
                MountLine::Blank => Ok(mounts),
                MountLine::Mount(mountpoint, info) => Ok(mounts.insert(mountpoint, info)),
                MountLine::Invalid => Err(StorageErrorView::InvalidMountInfo(list.last())),
            },
            Err(e) => Err(e),
        }
    }
}

/// The mounts that a map holds.
pub open spec fn mounts_of(m: Map<Seq<char>, MountInfo>) -> Map<Seq<char>, MountInfoView> {
    m.map_values(|v: MountInfo| v@)
}

proof fn lemma_mounts_listed_prefix(list: Seq<Seq<char>>, n: int)
    requires
        0 <= n <= list.len(),
        mounts_listed(list.take(n)) is Err,
    ensures
        mounts_listed(list) == mounts_listed(list.take(n)),
    decreases list.len(),
{
    if n == list.len() {
        assert(list.take(n) =~= list);
    } else {
        assert(list.drop_last().take(n) =~= list.take(n));
        lemma_mounts_listed_prefix(list.drop_last(), n);
    }
}

fn read_mode(options: &[char]) -> (r: Option<String>)
    ensures
        optional_text(r) == mount_mode(options@),
{
    let parts = fields(options, ',');
    proof {
        lemma_split_nonempty(options@, ',');
    }
    let first = parts[0];
    assert(split(options@, ',')[0] == first@) by {
        assert(texts(parts@)[0] == first@);
    }
    if spells(first, "rw") || spells(first, "ro") {
        Some(text_of(first))
    } else {
        None
    }
}

fn read_mount_line(line: &[char]) -> (r: Result<(String, MountInfo), StorageError>)
    requires
        !is_blank(line@),
    ensures
        match r {
            Ok((mountpoint, info)) => mount_line(line@) == MountLine::Mount(mountpoint@, info@),
            Err(e) => mount_line(line@) is Invalid && e@ == StorageErrorView::InvalidMountInfo(
                line@,
            ),
        },
{
    let dash: Vec<char> = vec![' ', '-', ' '];
    assert(dash@ =~= seq![' ', '-', ' ']);
    let (before, after) = match cut_once(line, dash.as_slice()) {
        Some(parts) => parts,
        None => {
            return Err(StorageError::InvalidMountInfo(text_of(line)));
        },
    };
    let before_words = split_words(before);
    let after_words = split_words(after);
    if before_words.len() < 6 || after_words.len() == 0 {
        return Err(StorageError::InvalidMountInfo(text_of(line)));
    }
    assert(words(before@)[4] == before_words@[4]@) by {
        assert(texts(before_words@)[4] == before_words@[4]@);
    }
    assert(words(before@)[5] == before_words@[5]@) by {
        assert(texts(before_words@)[5] == before_words@[5]@);
    }
    assert(words(after@)[0] == after_words@[0]@) by {
        assert(texts(after_words@)[0] == after_words@[0]@);
    }
    let mountpoint = decode_chars(before_words[4]);
    Ok(
        (
            text_of(mountpoint.as_slice()),
            MountInfo {
                filesystem_type: text_of(after_words[0]),
                mode: read_mode(before_words[5]),
            },
        ),
    )
}

/// Reads the contents of the mount list.
pub fn parse_mount_info(contents: &str) -> (r: Result<TextMap<MountInfo>, StorageError>)
    ensures
        match r {
            Ok(mounts) => mounts_listed(lines(contents@)) == Ok::<
                Map<Seq<char>, MountInfoView>,
                StorageErrorView,
            >(mounts_of(mounts@)),
            Err(e) => mounts_listed(lines(contents@)) == Err::<
                Map<Seq<char>, MountInfoView>,
                StorageErrorView,
            >(e@),
        },
{
    let chars = chars_of(contents);
    let list = split_lines(chars.as_slice());
    let n: usize = list.len();
    let ghost all = lines(contents@);
    let mut mounts: TextMap<MountInfo> = TextMap::new();
    assert(mounts_of(mounts@) =~= Map::<Seq<char>, MountInfoView>::empty());
    assert(all.take(0) =~= Seq::<Seq<char>>::empty());
    for i in 0..n
        invariant
            n == list@.len(),
            all == lines(contents@),
            all == texts(list@),
            mounts_listed(all.take(i as int)) == Ok::<
                Map<Seq<char>, MountInfoView>,
                StorageErrorView,
            >(mounts_of(mounts@)),
    {
        let line = list[i];
        assert(all[i as int] == line@);
        assert(all.take(i + 1).drop_last() =~= all.take(i as int));
        assert(all.take(i + 1).last() == line@);
        if !blank(line) {
            match read_mount_line(line) {
                Ok((mountpoint, info)) => {
                    let ghost before = mounts@;
                    let ghost key = mountpoint@;
                    mounts.insert(mountpoint, info);
                    assert(mounts_of(before.insert(key, info)) =~= mounts_of(before).insert(
                        key,
                        info@,
                    ));
                },
                Err(e) => {
                    proof {
                        lemma_mounts_listed_prefix(all, i + 1);
                    }
                    return Err(e);
                },
            }
        }
    }
    assert(all.take(n as int) =~= all);
    Ok(mounts)
}

// ---------------------------------------------------------------------------
// Bytes
// ---------------------------------------------------------------------------

/// The block counts of a file system.
#[derive(Clone, Copy, Debug, PartialEq, Eq, Structural)]
pub struct FilesystemBlocks {
    /// Size of a block, as the counts mean it.
    pub fragment_size: u64,
    /// All blocks.
    pub blocks: u64,
    /// Free blocks.
    pub blocks_free: u64,
    /// Free blocks that unprivileged users may take.
    pub blocks_available: u64,
}

/// The byte counts of a file system.
#[derive(Clone, Copy, Debug, PartialEq, Eq, Structural)]
pub struct FilesystemBytes {
    /// All bytes.
    pub limit: u64,
    /// Used bytes.
    pub used: u64,
    /// Free bytes that unprivileged users may take.
    pub free: u64,
    /// Free bytes that only privileged users may take.
    pub reserved: u64,
}

/// The bytes that block counts stand for.
pub open spec fn bytes_of_blocks(b: FilesystemBlocks) -> FilesystemBytes {
    FilesystemBytes {
        limit: capped_product(b.blocks, b.fragment_size),
        used: growth(
            capped_product(b.blocks, b.fragment_size),
            capped_product(b.blocks_free, b.fragment_size),
        ),
        free: capped_product(b.blocks_available, b.fragment_size),
        reserved: capped_product(growth(b.blocks_free, b.blocks_available), b.fragment_size),
    }
}

impl FilesystemBytes {
    /// The fraction of all bytes that is used.
    pub fn used_ratio(self) -> (r: Ratio)
        ensures
            r == share(self.used, self.limit),
    {
        ratio(self.used, self.limit)
    }
}

/// Computes the bytes that block counts stand for.
pub fn filesystem_bytes_from_blocks(
    fragment_size: u64,
    blocks: u64,
    blocks_free: u64,
    blocks_available: u64,
) -> (r: FilesystemBytes)
    ensures
        r == bytes_of_blocks(
            FilesystemBlocks { fragment_size, blocks, blocks_free, blocks_available },
        ),
{
    let limit: u64 = multiply_capped(blocks, fragment_size);
    let free_all: u64 = multiply_capped(blocks_free, fragment_size);
    let free: u64 = multiply_capped(blocks_available, fragment_size);
    let reserved: u64 = multiply_capped(
        blocks_free.saturating_sub(blocks_available),
        fragment_size,
    );
    FilesystemBytes { limit, used: limit.saturating_sub(free_all), free, reserved }
}

/// Used, free and reserved bytes add up to the capacity, where no more blocks
/// are available than free, no more free than there are, and the capacity fits
/// in 64 bits.
pub proof fn law_bytes_add_up(b: FilesystemBlocks)
    requires
        b.blocks_available <= b.blocks_free <= b.blocks,
        b.blocks * b.fragment_size <= u64::MAX,
    ensures
        ({
            let bytes = bytes_of_blocks(b);
            &&& bytes.limit == b.blocks * b.fragment_size
            &&& bytes.used + bytes.free + bytes.reserved == bytes.limit
        }),
{
    let f = b.fragment_size as int;
    assert(b.blocks_free * f <= b.blocks * f) by (nonlinear_arith)
        requires
            b.blocks_free <= b.blocks,
            f >= 0,
    ;
    assert(b.blocks_available * f <= b.blocks_free * f) by (nonlinear_arith)
        requires
            b.blocks_available <= b.blocks_free,
            f >= 0,
    ;
    let kept = b.blocks_free - b.blocks_available;
    assert(kept * f == b.blocks_free * f - b.blocks_available * f) by (nonlinear_arith)
        requires
            kept == b.blocks_free - b.blocks_available,
    ;
}

/// The used fraction is never more than one.
pub proof fn law_used_is_at_most_limit(b: FilesystemBlocks)
    ensures
        bytes_of_blocks(b).used <= bytes_of_blocks(b).limit,
        share(bytes_of_blocks(b).used, bytes_of_blocks(b).limit).numerator <= share(
            bytes_of_blocks(b).used,
            bytes_of_blocks(b).limit,
        ).denominator,
{
}

// ---------------------------------------------------------------------------
// Samples
// ---------------------------------------------------------------------------

/// Filesystem capacity and utilization sample for one mountpoint.
#[derive(Debug, PartialEq)]
pub struct FilesystemSample {
    /// Mountpoint path that was sampled.
    pub mountpoint: String,
    /// Filesystem type from Linux mountinfo, when available.
    pub filesystem_type: Option<String>,
    /// Mount mode from mountinfo, usually `ro` or `rw`.
    pub mode: Option<String>,
    /// Total filesystem capacity in bytes.
    pub limit_bytes: u64,
    /// Used bytes.
    pub used_bytes: u64,
    /// Free bytes available to unprivileged users.
    pub free_bytes: u64,
    /// Reserved bytes available only to privileged users.
    pub reserved_bytes: u64,
    /// Fraction of total bytes currently used.
    pub used_ratio: Ratio,
}

/// What a [`FilesystemSample`] says.
#[verifier::ext_equal]
pub struct FilesystemSampleView {
    pub mountpoint: Seq<char>,
    pub filesystem_type: Option<Seq<char>>,
    pub mode: Option<Seq<char>>,
    pub limit_bytes: u64,
    pub used_bytes: u64,
    pub free_bytes: u64,
    pub reserved_bytes: u64,
    pub used_ratio: Ratio,
}

impl View for FilesystemSample {
    type V = FilesystemSampleView;

    open spec fn view(&self) -> FilesystemSampleView {
        FilesystemSampleView {
            mountpoint: self.mountpoint@,
            filesystem_type: optional_text(self.filesystem_type),
            mode: optional_text(self.mode),
            limit_bytes: self.limit_bytes,
            used_bytes: self.used_bytes,
            free_bytes: self.free_bytes,
            reserved_bytes: self.reserved_bytes,
            used_ratio: self.used_ratio,
        }
    }
}

/// What a list of file system samples says.
pub open spec fn filesystems_of(list: Seq<FilesystemSample>) -> Seq<FilesystemSampleView> {
    list.map_values(|s: FilesystemSample| s@)
}

/// The sample of a mount point, from its block counts and the mount list.
pub open spec fn filesystem_at(
    mountpoint: Seq<char>,
    mounts: Map<Seq<char>, MountInfoView>,
    blocks: FilesystemBlocks,
) -> FilesystemSampleView {
    let bytes = bytes_of_blocks(blocks);
    FilesystemSampleView {
        mountpoint,
        filesystem_type: if mounts.contains_key(mountpoint) {
            Some(mounts[mountpoint].filesystem_type)
        } else {
            None
        },
        mode: if mounts.contains_key(mountpoint) {
            mounts[mountpoint].mode
        } else {
            None
        },
        limit_bytes: bytes.limit,
        used_bytes: bytes.used,
        free_bytes: bytes.free,
        reserved_bytes: bytes.reserved,
        used_ratio: share(bytes.used, bytes.limit),
    }
}

/// The block counts that were read for each mount point; none where they could
/// not be read.
pub open spec fn stat_at(stats: Seq<Option<FilesystemBlocks>>, i: int) -> Option<FilesystemBlocks> {
    if i < stats.len() {
        stats[i]
    } else {
        None
    }
}

/// The samples of the first mount points of a list. Those whose block counts
/// could not be read are passed over.
pub open spec fn filesystems_sampled(
    list: Seq<Seq<char>>,
    mounts: Map<Seq<char>, MountInfoView>,
    stats: Seq<Option<FilesystemBlocks>>,
    n: int,
) -> Seq<FilesystemSampleView>
    decreases n,
{
    if n <= 0 {
        Seq::empty()
    } else {
        let before = filesystems_sampled(list, mounts, stats, n - 1);
        match stat_at(stats, n - 1) {
            Some(blocks) => before.push(filesystem_at(list[n - 1], mounts, blocks)),
            None => before,
        }
    }
}

/// What is collected for configured mount points, from the mount list and the
/// block counts of each: it fails where the mount list does, or where mount
/// points are configured and none of them could be read.
pub open spec fn filesystems_collected(
    list: Seq<Seq<char>>,
    mountinfo_file: Result<Seq<char>, Seq<char>>,
    stats: Seq<Option<FilesystemBlocks>>,
) -> Result<Seq<FilesystemSampleView>, StorageErrorView> {
    match mountinfo_file {
        Ok(contents) => match mounts_listed(lines(contents)) {
            Ok(mounts) => {
                let samples = filesystems_sampled(list, mounts, stats, list.len() as int);
                if list.len() > 0 && samples.len() == 0 {
                    Err(StorageErrorView::NoFilesystemSamples)
                } else {
                    Ok(samples)
                }
            },
            Err(e) => Err(e),
        },
        Err(source) => Err(StorageErrorView::ReadMountInfo { path: MOUNTINFO_PATH@, source }),
    }
}

fn collect_filesystem(
    mountpoint: &str,
    mounts: &TextMap<MountInfo>,
    blocks: FilesystemBlocks,
) -> (r: FilesystemSample)
    ensures
        r@ == filesystem_at(mountpoint@, mounts_of(mounts@), blocks),
{
    let bytes = filesystem_bytes_from_blocks(
        blocks.fragment_size,
        blocks.blocks,
        blocks.blocks_free,
        blocks.blocks_available,
    );
    let (filesystem_type, mode) = match mounts.get(mountpoint) {
        Some(info) => (Some(info.filesystem_type.clone()), copy_optional(&info.mode)),
        None => (None, None),
    };
    FilesystemSample {
        mountpoint: mountpoint.to_string(),
        filesystem_type,
        mode,
        limit_bytes: bytes.limit,
        used_bytes: bytes.used,
        free_bytes: bytes.free,
        reserved_bytes: bytes.reserved,
        used_ratio: bytes.used_ratio(),
    }
}

/// Collects filesystem samples for the configured mountpoints, from the contents
/// of the mount list and the block counts of each mountpoint.
pub fn collect_filesystems(
    mounts: &Vec<String>,
    mountinfo_file: Result<&str, String>,
    stats: &Vec<Option<FilesystemBlocks>>,
) -> (r: Result<Vec<FilesystemSample>, StorageError>)
    ensures
        match filesystems_collected(
            strings(mounts@),
            crate::modules::memory::file_view(mountinfo_file),
            stats@,
        ) {
            Ok(samples) => r matches Ok(list) && filesystems_of(list@) == samples,
            Err(fault) => r matches Err(e) && e@ == fault,
        },
{
    let contents = match mountinfo_file {
        Ok(contents) => contents,
        Err(source) => {
            return Err(StorageError::ReadMountInfo { path: MOUNTINFO_PATH, source });
        },
    };
    let mount_info = match parse_mount_info(contents) {
        Ok(mount_info) => mount_info,
        Err(e) => {
            return Err(e);
        },
    };
    let n: usize = mounts.len();
    let ghost list = strings(mounts@);
    let ghost known = mounts_of(mount_info@);
    let mut samples: Vec<FilesystemSample> = Vec::new();
    assert(filesystems_of(samples@) =~= Seq::<FilesystemSampleView>::empty());
    for i in 0..n
        invariant
            n == mounts@.len(),
            list == strings(mounts@),
            known == mounts_of(mount_info@),
            filesystems_of(samples@) == filesystems_sampled(list, known, stats@, i as int),
    {
        let outcome = if i < stats.len() {
            stats[i]
        } else {
            None
        };
        if let Some(blocks) = outcome {
            let ghost before = samples@;
            let sample = collect_filesystem(mounts[i].as_str(), &mount_info, blocks);
            assert(list[i as int] == mounts@[i as int]@);
            samples.push(sample);
            assert(filesystems_of(before.push(sample)) =~= filesystems_of(before).push(sample@));
        }
    }
    assert(filesystems_of(samples@).len() == samples@.len());
    if n > 0 && samples.len() == 0 {
        return Err(StorageError::NoFilesystemSamples);
    }
    Ok(samples)
}

/// The attributes shared by every sample of one mount point.
pub open spec fn shared_attributes(sample: FilesystemSampleView) -> Map<Seq<char>, Seq<char>> {
    let base = Map::<Seq<char>, Seq<char>>::empty().insert(
        MOUNTPOINT_ATTRIBUTE@,
        sample.mountpoint,
    );
    let typed = match sample.filesystem_type {
        Some(t) => base.insert(FILESYSTEM_TYPE_ATTRIBUTE@, t),
        None => base,
    };
    match sample.mode {
        Some(m) => typed.insert(FILESYSTEM_MODE_ATTRIBUTE@, m),
        None => typed,
    }
}

/// The pipeline samples of one file system sample: its capacity, the bytes in
/// each state, and the share in use.
pub open spec fn filesystem_sample_views(sample: FilesystemSampleView, t: Timestamp) -> Seq<
    SampleView,
> {
    let base = shared_attributes(sample);
    let usage = |state: Seq<char>, bytes: u64|
        SampleView {
            name: FILESYSTEM_USAGE_SAMPLE@,
            value: SampleValue::GaugeU64(bytes),
            attributes: base.insert(FILESYSTEM_STATE_ATTRIBUTE@, state),
            timestamp: t,
        };
    seq![
        SampleView {
            name: FILESYSTEM_LIMIT_SAMPLE@,
            value: SampleValue::GaugeU64(sample.limit_bytes),
            attributes: base,
            timestamp: t,
        },
        usage("used"@, sample.used_bytes),
        usage("free"@, sample.free_bytes),
        usage("reserved"@, sample.reserved_bytes),
        SampleView {
            name: FILESYSTEM_UTILIZATION_SAMPLE@,
            value: SampleValue::GaugeF64(Measure::Ratio(sample.used_ratio)),
            attributes: base.insert(FILESYSTEM_STATE_ATTRIBUTE@, "used"@),
            timestamp: t,
        },
    ]
}

/// Attributes shared by every sample from one mountpoint.
fn base_attributes(sample: &FilesystemSample) -> (r: TextMap<String>)
    ensures
        attributes_of(r@) == shared_attributes(sample@),
{
    let mut attributes = one_attribute(MOUNTPOINT_ATTRIBUTE, sample.mountpoint.as_str());
    if let Some(filesystem_type) = &sample.filesystem_type {
        put_attribute(&mut attributes, FILESYSTEM_TYPE_ATTRIBUTE, filesystem_type.as_str());
    }
    if let Some(mode) = &sample.mode {
        put_attribute(&mut attributes, FILESYSTEM_MODE_ATTRIBUTE, mode.as_str());
    }
    attributes
}

fn state_sample(
    name: &str,
    value: SampleValue,
    base: &TextMap<String>,
    state: &str,
    timestamp: Timestamp,
) -> (r: Sample)
    ensures
        r@ == (SampleView {
            name: name@,
            value,
            attributes: attributes_of(base@).insert(FILESYSTEM_STATE_ATTRIBUTE@, state@),
            timestamp,
        }),
{
    let mut attributes = copy_attributes(base);
    put_attribute(&mut attributes, FILESYSTEM_STATE_ATTRIBUTE, state);
    Sample { name: name.to_string(), value, attributes, timestamp }
}

/// Converts one [`FilesystemSample`] into neutral pipeline samples.
pub fn filesystem_samples(sample: &FilesystemSample, timestamp: Timestamp) -> (r: Vec<Sample>)
    ensures
        samples_of(r@) == filesystem_sample_views(sample@, timestamp),
{
    let base = base_attributes(sample);
    let mut samples: Vec<Sample> = Vec::new();
    samples.push(
        Sample {
            name: FILESYSTEM_LIMIT_SAMPLE.to_string(),
            value: SampleValue::GaugeU64(sample.limit_bytes),
            attributes: copy_attributes(&base),
            timestamp,
        },
    );
    samples.push(
        state_sample(
            FILESYSTEM_USAGE_SAMPLE,
            SampleValue::GaugeU64(sample.used_bytes),
            &base,
            "used",
            timestamp,
        ),
    );
    samples.push(
        state_sample(
            FILESYSTEM_USAGE_SAMPLE,
            SampleValue::GaugeU64(sample.free_bytes),
            &base,
            "free",
            timestamp,
        ),
    );
    samples.push(
        state_sample(
            FILESYSTEM_USAGE_SAMPLE,
            SampleValue::GaugeU64(sample.reserved_bytes),
            &base,
            "reserved",
            timestamp,
        ),
    );
    samples.push(
        state_sample(
            FILESYSTEM_UTILIZATION_SAMPLE,
            SampleValue::GaugeF64(Measure::Ratio(sample.used_ratio)),
            &base,
            "used",
            timestamp,
        ),
    );
    assert(samples_of(samples@) =~= filesystem_sample_views(sample@, timestamp));
    samples
}

/// The pipeline samples of several file systems, one after the other, those of
/// each at a moment of its own.
pub open spec fn all_filesystem_sample_views(
    list: Seq<FilesystemSampleView>,
    times: Seq<Timestamp>,
) -> Seq<SampleView> {
    Seq::new(list.len(), |i: int| filesystem_sample_views(list[i], times[i])).flatten()
}

/// What was read of a mounted file system, and when it counts as measured.
#[derive(Clone, Copy, Debug, PartialEq, Eq, Structural)]
pub struct FilesystemReading {
    /// The block counts of the file system.
    pub blocks: FilesystemBlocks,
    /// The moment that its samples carry.
    pub timestamp: Timestamp,
}

/// The block counts among what was read for each mount point.
pub open spec fn blocks_read(readings: Seq<Option<FilesystemReading>>) -> Seq<
    Option<FilesystemBlocks>,
> {
    readings.map_values(
        |r: Option<FilesystemReading>|
            match r {
                Some(reading) => Some(reading.blocks),
                None => None,
            },
    )
}

/// The moments of the first mount points that could be read, in their order.
pub open spec fn times_read(readings: Seq<Option<FilesystemReading>>, n: int) -> Seq<Timestamp>
    decreases n,
{
    if n <= 0 {
        Seq::empty()
    } else if n <= readings.len() && readings[n - 1] is Some {
        times_read(readings, n - 1).push(readings[n - 1]->0.timestamp)
    } else {
        times_read(readings, n - 1)
    }
}

proof fn lemma_one_time_each(
    list: Seq<Seq<char>>,
    mounts: Map<Seq<char>, MountInfoView>,
    readings: Seq<Option<FilesystemReading>>,
    n: int,
)
    ensures
        filesystems_sampled(list, mounts, blocks_read(readings), n).len() == times_read(
            readings,
            n,
        ).len(),
    decreases n,
{
    if n > 0 {
        lemma_one_time_each(list, mounts, readings, n - 1);
    }
}

fn read_blocks(readings: &Vec<Option<FilesystemReading>>) -> (r: Vec<Option<FilesystemBlocks>>)
    ensures
        r@ == blocks_read(readings@),
{
    let n: usize = readings.len();
    let mut stats: Vec<Option<FilesystemBlocks>> = Vec::new();
    for i in 0..n
        invariant
            n == readings@.len(),
            stats@.len() == i,
            forall|k: int| 0 <= k < i ==> #[trigger] stats@[k] == blocks_read(readings@)[k],
    {
        let outcome = match readings[i] {
            Some(reading) => Some(reading.blocks),
            None => None,
        };
        stats.push(outcome);
    }
    assert(stats@ =~= blocks_read(readings@));
    stats
}

fn read_times(readings: &Vec<Option<FilesystemReading>>, n: usize) -> (r: Vec<Timestamp>)
    ensures
        r@ == times_read(readings@, n as int),
{
    let mut times: Vec<Timestamp> = Vec::new();
    for i in 0..n
        invariant
            times@ == times_read(readings@, i as int),
    {
        if i < readings.len() {
            if let Some(reading) = readings[i] {
                times.push(reading.timestamp);
            }
        }
    }
    times
}

/// Filesystem storage data provider.
#[derive(Debug)]
pub struct StorageProvider {
    mounts: Vec<String>,
}

impl StorageProvider {
    /// The mount points that are collected.
    pub closed spec fn mountpoints(&self) -> Seq<Seq<char>> {
        strings(self.mounts@)
    }

    /// Creates a provider collecting the given mountpoints.
    pub fn new(mounts: Vec<String>) -> (r: Self)
        ensures
            r.mountpoints() == strings(mounts@),
    {
        StorageProvider { mounts }
    }

    /// Stable provider name.
    pub fn name(&self) -> (r: &'static str)
        ensures
            r@ == "storage"@,
    {
        "storage"
    }

    /// The mount points that are collected.
    pub fn mounts(&self) -> (r: &Vec<String>)
        ensures
            strings(r@) == self.mountpoints(),
    {
        &self.mounts
    }

    /// Collects the samples of all mount points, from the contents of the mount
    /// list and what was read of each mount point. The samples of a file system
    /// carry the moment of its own reading.
    pub fn collect(
        &self,
        mountinfo_file: Result<&str, String>,
        readings: &Vec<Option<FilesystemReading>>,
    ) -> (r: Result<Vec<Sample>, ProviderError>)
        ensures
            match filesystems_collected(
                self.mountpoints(),
                crate::modules::memory::file_view(mountinfo_file),
                blocks_read(readings@),
            ) {
                Ok(list) => {
                    let times = times_read(readings@, self.mountpoints().len() as int);
                    &&& times.len() == list.len()
                    &&& r matches Ok(samples) && samples_of(samples@)
                        == all_filesystem_sample_views(list, times)
                },
                Err(fault) => r matches Err(e) && e.provider@ == "storage"@ && e.source@
                    == storage_error_message(fault),
            },
    {
        let ghost file = crate::modules::memory::file_view(mountinfo_file);
        let stats = read_blocks(readings);
        let list = match collect_filesystems(&self.mounts, mountinfo_file, &stats) {
            Ok(list) => list,
            Err(e) => {
                return Err(ProviderError::new("storage", e.message()));
            },
        };
        let times = read_times(readings, self.mounts.len());
        let n: usize = list.len();
        let mut samples: Vec<Sample> = Vec::new();
        proof {
            lemma_one_time_each(
                self.mountpoints(),
                mounts_listed(lines(file->Ok_0))->Ok_0,
                readings@,
                self.mountpoints().len() as int,
            );
            assert(filesystems_of(list@).len() == n);
        }
        let ghost views = Seq::new(
            filesystems_of(list@).len(),
            |i: int| filesystem_sample_views(filesystems_of(list@)[i], times@[i]),
        );
        assert(samples_of(samples@) =~= views.take(0).flatten());
        for i in 0..n
            invariant
                n == list@.len(),
                n == times@.len(),
                views == Seq::new(
                    filesystems_of(list@).len(),
                    |i: int| filesystem_sample_views(filesystems_of(list@)[i], times@[i]),
                ),
                samples_of(samples@) == views.take(i as int).flatten(),
        {
            let more = filesystem_samples(&list[i], times[i]);
            append_samples(&mut samples, more);
            proof {
                views.take(i as int).lemma_flatten_push(views[i as int]);
                assert(views.take(i as int).push(views[i as int]) =~= views.take(i + 1));
            }
        }
        assert(views.take(n as int) =~= views);
        Ok(samples)
    }

    /// Picks up mount list changes without rebuilding the provider.
    pub fn reconfigure(&mut self, config: &AgentRuntimeConfig)
        ensures
            final(self).mountpoints() == config@.storage.mounts,
    {
        self.mounts = copy_strings(&config.storage.mounts);
    }
}

/// With mount points configured, a collection that succeeds has a sample of at
/// least one of them, and of no more than all.
pub proof fn law_collection_is_never_empty(
    list: Seq<Seq<char>>,
    mountinfo_file: Result<Seq<char>, Seq<char>>,
    stats: Seq<Option<FilesystemBlocks>>,
)
    requires
        list.len() > 0,
        filesystems_collected(list, mountinfo_file, stats) is Ok,
    ensures
        0 < filesystems_collected(list, mountinfo_file, stats)->Ok_0.len() <= list.len(),
{
    let mounts = mounts_listed(lines(mountinfo_file->Ok_0))->Ok_0;
    lemma_sampled_length(list, mounts, stats, list.len() as int);
}

proof fn lemma_sampled_length(
    list: Seq<Seq<char>>,
    mounts: Map<Seq<char>, MountInfoView>,
    stats: Seq<Option<FilesystemBlocks>>,
    n: int,
)
    requires
        0 <= n,
    ensures
        filesystems_sampled(list, mounts, stats, n).len() <= n,
    decreases n,
{
    if n > 0 {
        lemma_sampled_length(list, mounts, stats, n - 1);
    }
}

/// Each metric of a file system carries the figure that its name and state stand
/// for, under the file system's own attributes and at its own moment.
pub proof fn law_each_filesystem_metric_carries_its_figure(
    sample: FilesystemSampleView,
    t: Timestamp,
)
    ensures
        ({
            let list = filesystem_sample_views(sample, t);
            let usage = "system.filesystem.usage"@;
            let state = "system.filesystem.state"@;
            &&& list.len() == 5
            &&& gives(
                list,
                "system.filesystem.limit"@,
                SampleValue::GaugeU64(sample.limit_bytes),
            )
            &&& gives_for(list, usage, state, "used"@, SampleValue::GaugeU64(sample.used_bytes))
            &&& gives_for(list, usage, state, "free"@, SampleValue::GaugeU64(sample.free_bytes))
            &&& gives_for(
                list,
                usage,
                state,
                "reserved"@,
                SampleValue::GaugeU64(sample.reserved_bytes),
            )
            &&& gives(
                list,
                "system.filesystem.utilization"@,
                SampleValue::GaugeF64(Measure::Ratio(sample.used_ratio)),
            )
            &&& forall|i: int|
                0 <= i < list.len() ==> {
                    let own = (#[trigger] list[i]).attributes;
                    &&& list[i].timestamp == t
                    &&& own.contains_key("system.filesystem.mountpoint"@)
                    &&& own["system.filesystem.mountpoint"@] == sample.mountpoint
                    &&& own.contains_key("system.filesystem.type"@)
                        <==> sample.filesystem_type is Some
                    &&& sample.filesystem_type matches Some(kind)
                        ==> own["system.filesystem.type"@] == kind
                    &&& own.contains_key("system.filesystem.mode"@) <==> sample.mode is Some
                    &&& sample.mode matches Some(mode) ==> own["system.filesystem.mode"@] == mode
                    &&& own.contains_key(state) <==> list[i].name != "system.filesystem.limit"@
                    &&& list[i].name == "system.filesystem.utilization"@ ==> own[state] == "used"@
                }
        }),
{
    reveal_strlit("system.filesystem.usage");
    reveal_strlit("system.filesystem.limit");
    reveal_strlit("system.filesystem.utilization");
    reveal_strlit("system.filesystem.mountpoint");
    reveal_strlit("system.filesystem.type");
    reveal_strlit("system.filesystem.mode");
    reveal_strlit("system.filesystem.state");
    reveal_strlit("used");
    reveal_strlit("free");
    reveal_strlit("reserved");
    assert("system.filesystem.usage"@[18] == 'u');
    assert("system.filesystem.limit"@[18] == 'l');
    assert("system.filesystem.usage"@.len() == 23);
    assert("system.filesystem.limit"@.len() == 23);
    assert("system.filesystem.utilization"@.len() == 29);
    assert("system.filesystem.mountpoint"@.len() == 28);
    assert("system.filesystem.type"@[18] == 't');
    assert("system.filesystem.mode"@[18] == 'm');
    assert("system.filesystem.state"@.len() == 23);
    assert("system.filesystem.type"@.len() == 22);
    assert("system.filesystem.mode"@.len() == 22);
    assert("used"@[0] == 'u');
    assert("free"@[0] == 'f');
    assert("reserved"@[0] == 'r');
    let list = filesystem_sample_views(sample, t);
    let usage = "system.filesystem.usage"@;
    let state = "system.filesystem.state"@;
    assert(list[0].name == "system.filesystem.limit"@);
    assert(has_attribute(list[1], usage, state, "used"@));
    assert(has_attribute(list[2], usage, state, "free"@));
    assert(has_attribute(list[3], usage, state, "reserved"@));
    assert(list[4].name == "system.filesystem.utilization"@);
}

/// No file system is left out of the samples, and each comes after those before
/// it.
pub proof fn law_samples_cover_every_filesystem(
    list: Seq<FilesystemSampleView>,
    times: Seq<Timestamp>,
    last: FilesystemSampleView,
    t: Timestamp,
)
    requires
        times.len() == list.len(),
    ensures
        all_filesystem_sample_views(Seq::empty(), Seq::empty()) == Seq::<SampleView>::empty(),
        all_filesystem_sample_views(list.push(last), times.push(t)) == all_filesystem_sample_views(
            list,
            times,
        ) + filesystem_sample_views(last, t),
{
    let none = Seq::<FilesystemSampleView>::empty();
    let never = Seq::<Timestamp>::empty();
    assert(Seq::new(none.len(), |i: int| filesystem_sample_views(none[i], never[i])) =~= Seq::<
        Seq<SampleView>,
    >::empty());
    let views = Seq::new(list.len(), |i: int| filesystem_sample_views(list[i], times[i]));
    let more = list.push(last);
    let later = times.push(t);
    assert(Seq::new(more.len(), |i: int| filesystem_sample_views(more[i], later[i])) =~= views.push(
        filesystem_sample_views(last, t),
    ));
    views.lemma_flatten_push(filesystem_sample_views(last, t));
}

/// In bytes, what is used is what is not free, what is free is what anyone may
/// take, and what is reserved is what is free to the privileged alone; each as far
/// as it can be counted.
pub proof fn law_bytes_are_those_of_the_blocks(b: FilesystemBlocks)
    ensures
        ({
            let bytes = bytes_of_blocks(b);
            let f = b.fragment_size as int;
            &&& b.blocks * f <= u64::MAX ==> bytes.limit == b.blocks * f
            &&& b.blocks * f <= u64::MAX && b.blocks_free <= b.blocks ==> bytes.used == (b.blocks
                - b.blocks_free) * f
            &&& b.blocks_available * f <= u64::MAX ==> bytes.free == b.blocks_available * f
            &&& b.blocks_available <= b.blocks_free && (b.blocks_free - b.blocks_available) * f
                <= u64::MAX ==> bytes.reserved == (b.blocks_free - b.blocks_available) * f
        }),
{
    let f = b.fragment_size as int;
    assert(0 <= b.blocks * f) by (nonlinear_arith)
        requires
            f >= 0,
    ;
    assert(0 <= b.blocks_available * f) by (nonlinear_arith)
        requires
            f >= 0,
    ;
    if b.blocks_free <= b.blocks {
        assert(0 <= b.blocks_free * f <= b.blocks * f) by (nonlinear_arith)
            requires
                b.blocks_free <= b.blocks,
                f >= 0,
        ;
        let taken = b.blocks - b.blocks_free;
        assert(taken * f == b.blocks * f - b.blocks_free * f) by (nonlinear_arith)
            requires
                taken == b.blocks - b.blocks_free,
        ;
    }
    if b.blocks_available <= b.blocks_free {
        let kept = b.blocks_free - b.blocks_available;
        assert(0 <= kept * f) by (nonlinear_arith)
            requires
                kept >= 0,
                f >= 0,
        ;
    }
}

/// The sample of a mount point has the bytes of its own blocks and the used share
/// of them, and what the mount list says of that mount point.
pub proof fn law_filesystem_sample_is_of_its_mount(
    mountpoint: Seq<char>,
    mounts: Map<Seq<char>, MountInfoView>,
    blocks: FilesystemBlocks,
)
    ensures
        ({
            let sample = filesystem_at(mountpoint, mounts, blocks);
            let bytes = bytes_of_blocks(blocks);
            &&& sample.mountpoint == mountpoint
            &&& !mounts.contains_key(mountpoint) ==> sample.filesystem_type is None
                && sample.mode is None
            &&& mounts.contains_key(mountpoint) ==> sample.filesystem_type == Some(
                mounts[mountpoint].filesystem_type,
            ) && sample.mode == mounts[mountpoint].mode
            &&& sample.limit_bytes == bytes.limit
            &&& sample.used_bytes == bytes.used
            &&& sample.free_bytes == bytes.free
            &&& sample.reserved_bytes == bytes.reserved
            &&& bytes.limit > 0 ==> sample.used_ratio == (Ratio {
                numerator: bytes.used,
                denominator: bytes.limit,
            })
            &&& bytes.limit == 0 ==> sample.used_ratio.numerator == 0
                && sample.used_ratio.denominator == 1
        }),
{
}

/// Of the lines of a mount list, one more line that mounts something says what is
/// mounted at its mount point, and leaves the other mount points alone; a blank
/// line changes nothing; and the first line of no such form is the fault of all.
pub proof fn law_last_mount_at_a_point_counts(list: Seq<Seq<char>>, line: Seq<char>)
    ensures
        mounts_listed(Seq::empty()) == Ok::<Map<Seq<char>, MountInfoView>, StorageErrorView>(
            Map::empty(),
        ),
        ({
            let before = mounts_listed(list);
            let after = mounts_listed(list.push(line));
            &&& before is Err ==> after == before
            &&& before is Ok ==> match mount_line(line) {
                MountLine::Blank => after == before,
                MountLine::Invalid => after == Err::<
                    Map<Seq<char>, MountInfoView>,
                    StorageErrorView,
                >(StorageErrorView::InvalidMountInfo(line)),
                MountLine::Mount(point, info) => {
                    &&& after is Ok
                    &&& after->Ok_0.contains_key(point)
                    &&& after->Ok_0[point] == info
                    &&& forall|other: Seq<char>|
                        other != point ==> {
                            &&& #[trigger] after->Ok_0.contains_key(other)
                                == before->Ok_0.contains_key(other)
                            &&& before->Ok_0.contains_key(other) ==> after->Ok_0[other]
                                == before->Ok_0[other]
                        }
                },
            }
        }),
{
    assert(list.push(line).drop_last() =~= list);
    assert(list.push(line).last() == line);
}

/// Every mount point whose blocks could be read has a sample, in the order of the
/// mount points, and no other has one.
pub proof fn law_every_readable_mount_is_sampled(
    list: Seq<Seq<char>>,
    mounts: Map<Seq<char>, MountInfoView>,
    stats: Seq<Option<FilesystemBlocks>>,
    point: Seq<char>,
    stat: Option<FilesystemBlocks>,
)
    requires
        stats.len() == list.len(),
    ensures
        ({
            let n = list.len() as int;
            let before = filesystems_sampled(list, mounts, stats, n);
            let after = filesystems_sampled(list.push(point), mounts, stats.push(stat), n + 1);
            &&& filesystems_sampled(list, mounts, stats, 0) == Seq::<FilesystemSampleView>::empty()
            &&& stat is None ==> after == before
            &&& stat matches Some(blocks) ==> after == before.push(
                filesystem_at(point, mounts, blocks),
            )
        }),
{
    let n = list.len() as int;
    lemma_sampled_prefix(list, mounts, stats, point, stat, n);
    assert(list.push(point)[n] == point);
    assert(stats.push(stat)[n] == stat);
}

proof fn lemma_sampled_prefix(
    list: Seq<Seq<char>>,
    mounts: Map<Seq<char>, MountInfoView>,
    stats: Seq<Option<FilesystemBlocks>>,
    point: Seq<char>,
    stat: Option<FilesystemBlocks>,
    n: int,
)
    requires
        stats.len() == list.len(),
        0 <= n <= list.len(),
    ensures
        filesystems_sampled(list.push(point), mounts, stats.push(stat), n) == filesystems_sampled(
            list,
            mounts,
            stats,
            n,
        ),
    decreases n,
{
    if n > 0 {
        lemma_sampled_prefix(list, mounts, stats, point, stat, n - 1);
        assert(list.push(point)[n - 1] == list[n - 1]);
        assert(stats.push(stat)[n - 1] == stats[n - 1]);
    }
}

/// A collection fails just where the mount list cannot be read or understood, or
/// where mount points are configured and none has a sample; otherwise it gives the
/// samples of all that could be read.
pub proof fn law_collection_fails_for_these_reasons(
    list: Seq<Seq<char>>,
    contents: Seq<char>,
    source: Seq<char>,
    stats: Seq<Option<FilesystemBlocks>>,
)
    ensures
        filesystems_collected(list, Err(source), stats) == Err::<
            Seq<FilesystemSampleView>,
            StorageErrorView,
        >(StorageErrorView::ReadMountInfo { path: "/proc/self/mountinfo"@, source }),
        ({
            let r = filesystems_collected(list, Ok(contents), stats);
            match mounts_listed(lines(contents)) {
                Err(e) => r == Err::<Seq<FilesystemSampleView>, StorageErrorView>(e),
                Ok(mounts) => {
                    let samples = filesystems_sampled(list, mounts, stats, list.len() as int);
                    &&& r is Ok ==> r->Ok_0 == samples
                    &&& r is Ok <==> list.len() == 0 || samples.len() > 0
                    &&& r is Err ==> r->Err_0 is NoFilesystemSamples
                },
            }
        }),
{
}

/// The mode of a mount is the first of its options, where that is one of the two
/// modes there are.
pub proof fn law_mode_is_the_first_option(first: Seq<char>, rest: Seq<char>)
    requires
        !first.contains(','),
    ensures
        first == "rw"@ || first == "ro"@ ==> mount_mode(first + seq![','] + rest) == Some(first)
            && mount_mode(first) == Some(first),
        first != "rw"@ && first != "ro"@ ==> mount_mode(first + seq![','] + rest) is None
            && mount_mode(first) is None,
{
    law_split_undoes_join(first, ',', rest);
}

/// A line of the mount list that has six fields before its separating hyphen and
/// one after it says what is mounted at its fifth field, put back as it was before
/// it was escaped; other lines that are not blank are at fault.
pub proof fn law_mount_line_is_read_by_its_fields(
    line: Seq<char>,
    before: Seq<char>,
    after: Seq<char>,
)
    ensures
        mount_line(line) is Blank <==> is_blank(line),
        !is_blank(line) && split_once(line, seq![' ', '-', ' ']) is None ==> mount_line(
            line,
        ) is Invalid,
        !is_blank(line) && split_once(line, seq![' ', '-', ' ']) == Some((before, after)) ==> {
            &&& words(before).len() < 6 || words(after).len() < 1 ==> mount_line(line) is Invalid
            &&& words(before).len() >= 6 && words(after).len() >= 1 ==> {
                &&& mount_line(line) is Mount
                &&& mount_line(line)->Mount_0 == unescaped(words(before)[4])
                &&& mount_line(line)->Mount_1.filesystem_type == words(after)[0]
                &&& mount_line(line)->Mount_1.mode == mount_mode(words(before)[5])
            }
        },
{
}

/// In a path, three octal digits after a backslash stand for one byte; every other
/// character stands for itself.
pub proof fn law_escapes_stand_for_bytes(n: int, rest: Seq<char>, c: char)
    requires
        0 <= n < 256,
        c != '\\',
    ensures
        ({
            let digit = |d: int| ('0' as u32 + d) as char;
            unescaped(seq!['\\', digit(n / 64), digit(n / 8 % 8), digit(n % 8)] + rest) == seq![
                n as char,
            ] + unescaped(rest)
        }),
        unescaped(seq![c] + rest) == seq![c] + unescaped(rest),
        unescaped(Seq::empty()) == Seq::<char>::empty(),
{
    let digit = |d: int| ('0' as u32 + d) as char;
    let s = seq!['\\', digit(n / 64), digit(n / 8 % 8), digit(n % 8)] + rest;
    let a = n / 64;
    let b = n / 8 % 8;
    let d = n % 8;
    assert(n == 64 * a + 8 * b + d);
    assert(s[0] == '\\');
    assert(s[1] == digit(a) && s[1] as u32 == '0' as u32 + a);
    assert(s[2] == digit(b) && s[2] as u32 == '0' as u32 + b);
    assert(s[3] == digit(d) && s[3] as u32 == '0' as u32 + d);
    assert(octal_value(s[1], s[2], s[3]) == n);
    assert(starts_escaped(s));
    assert(s.skip(4) =~= rest);
    let t = seq![c] + rest;
    assert(t[0] == c);
    assert(t.skip(1) =~= rest);
}

/// Each mount point that could be read keeps the blocks and the moment of its own
/// reading.
pub proof fn law_each_reading_keeps_its_own_moment(
    readings: Seq<Option<FilesystemReading>>,
    reading: Option<FilesystemReading>,
)
    ensures
        ({
            let n = readings.len() as int;
            let all = readings.push(reading);
            &&& times_read(readings, 0) == Seq::<Timestamp>::empty()
            &&& blocks_read(all).len() == n + 1
            &&& blocks_read(all).drop_last() == blocks_read(readings)
            &&& reading is None ==> blocks_read(all)[n] is None && times_read(all, n + 1)
                == times_read(readings, n)
            &&& reading matches Some(r) ==> blocks_read(all)[n] == Some(r.blocks) && times_read(
                all,
                n + 1,
            ) == times_read(readings, n).push(r.timestamp)
        }),
{
    let n = readings.len() as int;
    lemma_times_prefix(readings, reading, n);
    assert(blocks_read(readings.push(reading)).drop_last() =~= blocks_read(readings));
}

proof fn lemma_times_prefix(
    readings: Seq<Option<FilesystemReading>>,
    reading: Option<FilesystemReading>,
    n: int,
)
    requires
        0 <= n <= readings.len(),
    ensures
        times_read(readings.push(reading), n) == times_read(readings, n),
    decreases n,
{
    if n > 0 {
        lemma_times_prefix(readings, reading, n - 1);
        assert(readings.push(reading)[n - 1] == readings[n - 1]);
    }
}

/// Block counts that do not fit together count as nothing, and bytes that cannot
/// be counted are held at the greatest count there is.
pub proof fn law_blocks_that_do_not_fit_count_as_nothing(b: FilesystemBlocks)
    ensures
        ({
            let bytes = bytes_of_blocks(b);
            &&& b.blocks * b.fragment_size > u64::MAX ==> bytes.limit == u64::MAX
            &&& b.blocks_available * b.fragment_size > u64::MAX ==> bytes.free == u64::MAX
            &&& b.blocks_free >= b.blocks ==> bytes.used == 0
            &&& b.blocks_available >= b.blocks_free ==> bytes.reserved == 0
        }),
{
    let f = b.fragment_size as int;
    if b.blocks_free >= b.blocks {
        assert(b.blocks_free * f >= b.blocks * f) by (nonlinear_arith)
            requires
                b.blocks_free >= b.blocks,
                f >= 0,
        ;
    }
    assert(0 * f == 0) by (nonlinear_arith);
}

} // verus!
