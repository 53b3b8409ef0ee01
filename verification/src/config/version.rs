//! Versions of configuration, computed from its contents.

use vstd::prelude::*;
use vstd::utf8::encode_utf8;

use crate::config::runtime::{strings, AgentRuntimeConfig, AgentRuntimeConfigView};
use crate::digits::{
    decimal, decimal_text, hex, hex16_text, is_hex_char, law_numbers_are_written_plainly, lemma_hex,
};
use crate::hash::{fnv1a64, fnv1a64_of};
use crate::text::{is_blank, is_white_space};

verus! {

/// What the version of a runtime config starts with.
pub const CONFIG_VERSION_PREFIX: &'static str = "cfg-";

/// What the version of a config file starts with.
pub const SOURCE_VERSION_PREFIX: &'static str = "source-";

/// A list of texts in JSON, as `serde_json::to_string` writes it.
pub uninterp spec fn json_list_of(items: Seq<Seq<char>>) -> Seq<char>;

/// Writes a list of texts in JSON with `serde_json::to_string`.
///
/// Taken on trust: the JSON text depends on the texts of the list alone.
/// Serialising a list of strings does not fail.
#[verifier::external_body]
fn json_list(items: &Vec<String>) -> (r: String)
    ensures
        r@ == json_list_of(strings(items@)),
{
    serde_json::to_string(items).unwrap_or_default()
}

/// A truth value in JSON.
pub open spec fn bool_json(b: bool) -> Seq<char> {
    if b {
        "true"@
    } else {
        "false"@
    }
}

/// The settings of a collector that has but a switch and an interval, in JSON.
pub open spec fn collector_json(enabled: bool, interval_seconds: u64) -> Seq<char> {
    "{\"enabled\":"@ + bool_json(enabled) + ",\"interval_seconds\":"@ + decimal(
        interval_seconds as nat,
    ) + "}"@
}

/// A runtime config in JSON, with its version left empty, where the list of
/// mount paths in JSON is `mounts_json`.
pub open spec fn settings_json(c: AgentRuntimeConfigView, mounts_json: Seq<char>) -> Seq<char> {
    "{\"version\":\"\",\"agent\":{\"config_poll_interval_seconds\":"@ + decimal(
        c.agent.config_poll_interval_seconds as nat,
    ) + ",\"heartbeat_interval_seconds\":"@ + decimal(c.agent.heartbeat_interval_seconds as nat)
        + "},\"storage\":{\"enabled\":"@ + bool_json(c.storage.enabled)
        + ",\"interval_seconds\":"@ + decimal(c.storage.interval_seconds as nat)
        + ",\"mounts\":"@ + mounts_json + "},\"memory\":"@ + collector_json(
        c.memory.enabled,
        c.memory.interval_seconds,
    ) + ",\"cpu\":"@ + collector_json(c.cpu.enabled, c.cpu.interval_seconds) + ",\"network\":"@
        + collector_json(c.network.enabled, c.network.interval_seconds) + ",\"disk_io\":"@
        + collector_json(c.disk_io.enabled, c.disk_io.interval_seconds) + "}"@
}

/// The version of a runtime config for a host, where the list of mount paths in
/// JSON is `mounts_json`: the hash of the host name and of the settings.
pub open spec fn version_of(
    hostname: Seq<char>,
    c: AgentRuntimeConfigView,
    mounts_json: Seq<char>,
) -> Seq<char> {
    CONFIG_VERSION_PREFIX@ + hex(
        fnv1a64_of(encode_utf8(hostname) + encode_utf8(settings_json(c, mounts_json))) as nat,
        16,
    )
}

/// The version of a runtime config for a host.
pub open spec fn effective_version(hostname: Seq<char>, c: AgentRuntimeConfigView) -> Seq<char> {
    version_of(hostname, c, json_list_of(c.storage.mounts))
}

/// The version of a config file with some contents.
pub open spec fn source_version(contents: Seq<char>) -> Seq<char> {
    SOURCE_VERSION_PREFIX@ + hex(fnv1a64_of(encode_utf8(contents)) as nat, 16)
}

fn bool_text(b: bool) -> (r: &'static str)
    ensures
        r@ == bool_json(b),
{
    if b {
        "true"
    } else {
        "false"
    }
}

fn collector_text(enabled: bool, interval_seconds: u64) -> (r: String)
    ensures
        r@ == collector_json(enabled, interval_seconds),
{
    let interval = decimal_text(interval_seconds);
    "{\"enabled\":".to_string().concat(bool_text(enabled)).concat(",\"interval_seconds\":").concat(
        interval.as_str(),
    ).concat("}")
}

fn settings_text(runtime: &AgentRuntimeConfig, mounts_json: &str) -> (r: String)
    ensures
        r@ == settings_json(runtime@, mounts_json@),
{
    let poll = decimal_text(runtime.agent.config_poll_interval_seconds);
    let heartbeat = decimal_text(runtime.agent.heartbeat_interval_seconds);
    let storage = decimal_text(runtime.storage.interval_seconds);
    let memory = collector_text(runtime.memory.enabled, runtime.memory.interval_seconds);
    let cpu = collector_text(runtime.cpu.enabled, runtime.cpu.interval_seconds);
    let network = collector_text(runtime.network.enabled, runtime.network.interval_seconds);
    let disk_io = collector_text(runtime.disk_io.enabled, runtime.disk_io.interval_seconds);
    "{\"version\":\"\",\"agent\":{\"config_poll_interval_seconds\":".to_string().concat(
        poll.as_str(),
    ).concat(",\"heartbeat_interval_seconds\":").concat(heartbeat.as_str()).concat(
        "},\"storage\":{\"enabled\":",
    ).concat(bool_text(runtime.storage.enabled)).concat(",\"interval_seconds\":").concat(
        storage.as_str(),
    ).concat(",\"mounts\":").concat(mounts_json).concat("},\"memory\":").concat(
        memory.as_str(),
    ).concat(",\"cpu\":").concat(cpu.as_str()).concat(",\"network\":").concat(
        network.as_str(),
    ).concat(",\"disk_io\":").concat(disk_io.as_str()).concat("}")
}

/// Computes the version of a runtime config for a host, given its list of mount
/// paths in JSON.
pub fn config_version(hostname: &str, runtime: &AgentRuntimeConfig, mounts_json: &str) -> (r:
    String)
    ensures
        r@ == version_of(hostname@, runtime@, mounts_json@),
{
    let serialized = settings_text(runtime, mounts_json);
    let mut bytes: Vec<u8> = Vec::new();
    bytes.extend_from_slice(hostname.as_bytes());
    assert(bytes@ =~= encode_utf8(hostname@));
    bytes.extend_from_slice(serialized.as_str().as_bytes());
    assert(bytes@ =~= encode_utf8(hostname@) + encode_utf8(serialized@));
    let digits = hex16_text(fnv1a64(bytes.as_slice()));
    CONFIG_VERSION_PREFIX.to_string().concat(digits.as_str())
}

/// Computes the version of a runtime config for a host. The version that the
/// config carries does not matter.
pub fn effective_config_version(hostname: &str, runtime: &AgentRuntimeConfig) -> (r: String)
    ensures
        r@ == effective_version(hostname@, runtime@),
{
    let mounts_json = json_list(&runtime.storage.mounts);
    config_version(hostname, runtime, mounts_json.as_str())
}

/// Computes a stable version identifier for raw config file contents.
pub fn config_source_version(contents: &str) -> (r: String)
    ensures
        r@ == source_version(contents@),
{
    let digits = hex16_text(fnv1a64(contents.as_bytes()));
    SOURCE_VERSION_PREFIX.to_string().concat(digits.as_str())
}

/// The version of a runtime config depends on the host and the settings, and
/// not on the version that the config carries.
pub proof fn law_version_ignores_the_standing_version(
    hostname: Seq<char>,
    a: AgentRuntimeConfigView,
    b: AgentRuntimeConfigView,
)
    requires
        a == (AgentRuntimeConfigView { version: a.version, ..b }),
    ensures
        effective_version(hostname, a) == effective_version(hostname, b),
{
}

/// The version of a runtime config is `cfg-` and 16 lower-case hexadecimal
/// digits; it is never blank.
pub proof fn law_version_form(hostname: Seq<char>, c: AgentRuntimeConfigView)
    ensures
        CONFIG_VERSION_PREFIX@.is_prefix_of(effective_version(hostname, c)),
        effective_version(hostname, c).len() == 20,
        forall|i: int|
            4 <= i < 20 ==> is_hex_char(#[trigger] effective_version(hostname, c)[i]),
        !is_blank(effective_version(hostname, c)),
{
    reveal_strlit("cfg-");
    let version = effective_version(hostname, c);
    let json = settings_json(c, json_list_of(c.storage.mounts));
    let n = fnv1a64_of(encode_utf8(hostname) + encode_utf8(json)) as nat;
    lemma_hex(n, 16);
    assert forall|i: int| 4 <= i < 20 implies is_hex_char(#[trigger] version[i]) by {
        assert(version[i] == hex(n, 16)[i - 4]);
    }
    assert(!is_white_space(version[0]));
}

/// The version of a config file is `source-` and 16 lower-case hexadecimal
/// digits.
pub proof fn law_source_version_form(contents: Seq<char>)
    ensures
        SOURCE_VERSION_PREFIX@.is_prefix_of(source_version(contents)),
        source_version(contents).len() == 23,
        forall|i: int| 7 <= i < 23 ==> is_hex_char(#[trigger] source_version(contents)[i]),
{
    reveal_strlit("source-");
    let version = source_version(contents);
    let n = fnv1a64_of(encode_utf8(contents)) as nat;
    lemma_hex(n, 16);
    assert forall|i: int| 7 <= i < 23 implies is_hex_char(#[trigger] version[i]) by {
        assert(version[i] == hex(n, 16)[i - 7]);
    }
}

proof fn lemma_same_end(x: Seq<char>, y: Seq<char>, end: Seq<char>)
    requires
        x + end == y + end,
    ensures
        x == y,
{
    assert((x + end).len() == (y + end).len());
    assert(x =~= (x + end).take(x.len() as int));
    assert(y =~= (y + end).take(y.len() as int));
}

proof fn lemma_same_number_at_end(x: Seq<char>, a: nat, y: Seq<char>, b: nat)
    requires
        x.len() > 0,
        y.len() > 0,
        !('0' <= x.last() <= '9'),
        !('0' <= y.last() <= '9'),
        x + decimal(a) == y + decimal(b),
    ensures
        x == y,
        a == b,
{
    law_numbers_are_written_plainly(a);
    law_numbers_are_written_plainly(b);
    let s = x + decimal(a);
    let t = y + decimal(b);
    assert(s.len() == x.len() + decimal(a).len());
    assert(t.len() == y.len() + decimal(b).len());
    if decimal(a).len() < decimal(b).len() {
        assert(s[x.len() - 1] == x.last());
        assert(t[x.len() - 1] == decimal(b)[x.len() - 1 - y.len()]);
    } else if decimal(b).len() < decimal(a).len() {
        assert(t[y.len() - 1] == y.last());
        assert(s[y.len() - 1] == decimal(a)[y.len() - 1 - x.len()]);
    }
    assert(x =~= s.take(x.len() as int));
    assert(y =~= t.take(y.len() as int));
    assert(decimal(a) =~= s.skip(x.len() as int));
    assert(decimal(b) =~= t.skip(y.len() as int));
}

proof fn lemma_same_switch_at_end(x: Seq<char>, a: bool, y: Seq<char>, b: bool)
    requires
        x + bool_json(a) == y + bool_json(b),
    ensures
        x == y,
        a == b,
{
    reveal_strlit("true");
    reveal_strlit("false");
    let s = x + bool_json(a);
    let t = y + bool_json(b);
    assert("true"@.len() == 4 && "true"@[2] == 'u');
    assert("false"@.len() == 5 && "false"@[3] == 's');
    if a != b {
        assert(s[s.len() - 2] == bool_json(a)[bool_json(a).len() - 2]);
        assert(t[t.len() - 2] == bool_json(b)[bool_json(b).len() - 2]);
    }
    lemma_same_end(x, y, bool_json(a));
}

proof fn lemma_same_collector_at_end(
    x: Seq<char>,
    a: bool,
    i: u64,
    y: Seq<char>,
    b: bool,
    j: u64,
)
    requires
        x + collector_json(a, i) == y + collector_json(b, j),
    ensures
        x == y,
        a == b,
        i == j,
{
    let open = "{\"enabled\":"@;
    let mid = ",\"interval_seconds\":"@;
    let close = "}"@;
    reveal_strlit("{\"enabled\":");
    reveal_strlit(",\"interval_seconds\":");
    assert(mid.len() == 20 && mid[19] == ':');
    let x1 = x + open + bool_json(a);
    let y1 = y + open + bool_json(b);
    assert(x + collector_json(a, i) =~= x1 + mid + decimal(i as nat) + close);
    assert(y + collector_json(b, j) =~= y1 + mid + decimal(j as nat) + close);
    lemma_same_end(x1 + mid + decimal(i as nat), y1 + mid + decimal(j as nat), close);
    assert((x1 + mid).last() == ':' && (y1 + mid).last() == ':');
    lemma_same_number_at_end(x1 + mid, i as nat, y1 + mid, j as nat);
    lemma_same_end(x1, y1, mid);
    lemma_same_switch_at_end(x + open, a, y + open, b);
    lemma_same_end(x, y, open);
}

/// The text that a version is computed from tells settings apart: where two texts
/// are the same, so is every setting but the mount paths, which stand in it as
/// their JSON list.
pub proof fn law_hashed_text_tells_settings_apart(
    a: AgentRuntimeConfigView,
    b: AgentRuntimeConfigView,
    mounts_json: Seq<char>,
)
    requires
        settings_json(a, mounts_json) == settings_json(b, mounts_json),
    ensures
        a.agent == b.agent,
        a.storage.enabled == b.storage.enabled,
        a.storage.interval_seconds == b.storage.interval_seconds,
        a.memory == b.memory,
        a.cpu == b.cpu,
        a.network == b.network,
        a.disk_io == b.disk_io,
{
    let l0 = "{\"version\":\"\",\"agent\":{\"config_poll_interval_seconds\":"@;
    let l1 = ",\"heartbeat_interval_seconds\":"@;
    let l2 = "},\"storage\":{\"enabled\":"@;
    let l3 = ",\"interval_seconds\":"@;
    let l4 = ",\"mounts\":"@;
    let l5 = "},\"memory\":"@;
    let l6 = ",\"cpu\":"@;
    let l7 = ",\"network\":"@;
    let l8 = ",\"disk_io\":"@;
    reveal_strlit("{\"version\":\"\",\"agent\":{\"config_poll_interval_seconds\":");
    reveal_strlit(",\"heartbeat_interval_seconds\":");
    reveal_strlit(",\"interval_seconds\":");
    assert(l0.len() == 54 && l0[53] == ':');
    assert(l1.len() == 30 && l1[29] == ':');
    assert(l3.len() == 20 && l3[19] == ':');
    let a1 = l0 + decimal(a.agent.config_poll_interval_seconds as nat);
    let b1 = l0 + decimal(b.agent.config_poll_interval_seconds as nat);
    let a2 = a1 + l1 + decimal(a.agent.heartbeat_interval_seconds as nat);
    let b2 = b1 + l1 + decimal(b.agent.heartbeat_interval_seconds as nat);
    let a3 = a2 + l2 + bool_json(a.storage.enabled);
    let b3 = b2 + l2 + bool_json(b.storage.enabled);
    let a4 = a3 + l3 + decimal(a.storage.interval_seconds as nat);
    let b4 = b3 + l3 + decimal(b.storage.interval_seconds as nat);
    let a5 = a4 + l4 + mounts_json;
    let b5 = b4 + l4 + mounts_json;
    let a6 = a5 + l5 + collector_json(a.memory.enabled, a.memory.interval_seconds);
    let b6 = b5 + l5 + collector_json(b.memory.enabled, b.memory.interval_seconds);
    let a7 = a6 + l6 + collector_json(a.cpu.enabled, a.cpu.interval_seconds);
    let b7 = b6 + l6 + collector_json(b.cpu.enabled, b.cpu.interval_seconds);
    let a8 = a7 + l7 + collector_json(a.network.enabled, a.network.interval_seconds);
    let b8 = b7 + l7 + collector_json(b.network.enabled, b.network.interval_seconds);
    let a9 = a8 + l8 + collector_json(a.disk_io.enabled, a.disk_io.interval_seconds);
    let b9 = b8 + l8 + collector_json(b.disk_io.enabled, b.disk_io.interval_seconds);
    assert(settings_json(a, mounts_json) == a9 + "}"@);
    assert(settings_json(b, mounts_json) == b9 + "}"@);
    lemma_same_end(a9, b9, "}"@);
    lemma_same_collector_at_end(
        a8 + l8,
        a.disk_io.enabled,
        a.disk_io.interval_seconds,
        b8 + l8,
        b.disk_io.enabled,
        b.disk_io.interval_seconds,
    );
    lemma_same_end(a8, b8, l8);
    lemma_same_collector_at_end(
        a7 + l7,
        a.network.enabled,
        a.network.interval_seconds,
        b7 + l7,
        b.network.enabled,
        b.network.interval_seconds,
    );
    lemma_same_end(a7, b7, l7);
    lemma_same_collector_at_end(
        a6 + l6,
        a.cpu.enabled,
        a.cpu.interval_seconds,
        b6 + l6,
        b.cpu.enabled,
        b.cpu.interval_seconds,
    );
    lemma_same_end(a6, b6, l6);
    lemma_same_collector_at_end(
        a5 + l5,
        a.memory.enabled,
        a.memory.interval_seconds,
        b5 + l5,
        b.memory.enabled,
        b.memory.interval_seconds,
    );
    lemma_same_end(a5, b5, l5);
    lemma_same_end(a4 + l4, b4 + l4, mounts_json);
    lemma_same_end(a4, b4, l4);
    assert((a3 + l3).last() == ':' && (b3 + l3).last() == ':');
    lemma_same_number_at_end(
        a3 + l3,
        a.storage.interval_seconds as nat,
        b3 + l3,
        b.storage.interval_seconds as nat,
    );
    lemma_same_end(a3, b3, l3);
    lemma_same_switch_at_end(a2 + l2, a.storage.enabled, b2 + l2, b.storage.enabled);
    lemma_same_end(a2, b2, l2);
    assert((a1 + l1).last() == ':' && (b1 + l1).last() == ':');
    lemma_same_number_at_end(
        a1 + l1,
        a.agent.heartbeat_interval_seconds as nat,
        b1 + l1,
        b.agent.heartbeat_interval_seconds as nat,
    );
    lemma_same_end(a1, b1, l1);
    lemma_same_number_at_end(
        l0,
        a.agent.config_poll_interval_seconds as nat,
        l0,
        b.agent.config_poll_interval_seconds as nat,
    );
}

/// A version is the hash of the host name and the settings, in sixteen hexadecimal
/// digits; that of a source is the hash of its contents.
pub proof fn law_versions_are_hashes(hostname: Seq<char>, c: AgentRuntimeConfigView)
    ensures
        effective_version(hostname, c) == "cfg-"@ + hex(
            fnv1a64_of(
                encode_utf8(hostname) + encode_utf8(
                    settings_json(c, json_list_of(c.storage.mounts)),
                ),
            ) as nat,
            16,
        ),
        source_version(hostname) == "source-"@ + hex(fnv1a64_of(encode_utf8(hostname)) as nat, 16),
{
}

} // verus!
