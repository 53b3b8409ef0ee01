//! What providers measure.

use vstd::prelude::*;

use crate::text_map::{ascending, lemma_entry, lemma_key, map_of, TextMap};
use crate::time::{Duration, Timestamp};

verus! {

/// A quotient of two counts.
#[derive(Clone, Copy, Debug, PartialEq, Eq, Structural)]
pub struct Ratio {
    /// What is divided.
    pub numerator: u64,
    /// What it is divided by.
    pub denominator: u64,
}

/// The share that a value has of a total; none of an empty total.
pub open spec fn share(value: u64, total: u64) -> Ratio {
    if total == 0 {
        Ratio { numerator: 0, denominator: 1 }
    } else {
        Ratio { numerator: value, denominator: total }
    }
}

/// The share that a value has of a total; none of an empty total.
pub fn ratio(value: u64, total: u64) -> (r: Ratio)
    ensures
        r == share(value, total),
        r.denominator > 0,
{
    if total == 0 {
        Ratio { numerator: 0, denominator: 1 }
    } else {
        Ratio { numerator: value, denominator: total }
    }
}

/// A measurement that need not be a whole number.
#[derive(Clone, Copy, Debug, PartialEq, Eq, Structural)]
pub enum Measure {
    /// A quotient of two counts.
    Ratio(Ratio),
    /// A span of time, given out in milliseconds.
    Milliseconds(Duration),
}

/// The value carried by a [`Sample`].
#[derive(Clone, Copy, Debug, PartialEq, Eq, Structural)]
pub enum SampleValue {
    /// A monotonically increasing count, e.g. bytes transferred.
    Counter(u64),
    /// A point-in-time unsigned measurement, e.g. bytes used.
    GaugeU64(u64),
    /// A point-in-time signed measurement, e.g. in-flight operations.
    GaugeI64(i64),
    /// A point-in-time fractional measurement, e.g. a utilization ratio.
    GaugeF64(Measure),
}

/// A single measured value emitted by a provider.
#[derive(Debug, PartialEq)]
pub struct Sample {
    /// Dotted metric name, e.g. `system.filesystem.usage`.
    pub name: String,
    /// The measured value.
    pub value: SampleValue,
    /// Dimensions describing the measurement, e.g. `mountpoint` -> `/`.
    ///
    /// Attributes of the transport, such as the active config version, are
    /// added by the sink, not the provider.
    pub attributes: TextMap<String>,
    /// When the measurement was taken.
    pub timestamp: Timestamp,
}

/// What a [`Sample`] says.
#[verifier::ext_equal]
pub struct SampleView {
    pub name: Seq<char>,
    pub value: SampleValue,
    pub attributes: Map<Seq<char>, Seq<char>>,
    pub timestamp: Timestamp,
}

/// The attributes that a map holds.
pub open spec fn attributes_of(m: Map<Seq<char>, String>) -> Map<Seq<char>, Seq<char>> {
    m.map_values(|v: String| v@)
}

impl View for Sample {
    type V = SampleView;

    open spec fn view(&self) -> SampleView {
        SampleView {
            name: self.name@,
            value: self.value,
            attributes: attributes_of(self.attributes@),
            timestamp: self.timestamp,
        }
    }
}

/// What a list of samples says.
pub open spec fn samples_of(list: Seq<Sample>) -> Seq<SampleView> {
    list.map_values(|s: Sample| s@)
}

proof fn lemma_same_attributes(a: Seq<(Seq<char>, String)>, b: Seq<(Seq<char>, String)>)
    requires
        ascending(a),
        ascending(b),
        a.len() == b.len(),
        forall|i: int|
            0 <= i < a.len() ==> (#[trigger] a[i]).0 == b[i].0 && a[i].1@ == b[i].1@,
    ensures
        attributes_of(map_of(a)) == attributes_of(map_of(b)),
{
    let x = attributes_of(map_of(a));
    let y = attributes_of(map_of(b));
    assert forall|key: Seq<char>| #[trigger] x.contains_key(key) implies y.contains_key(key)
        && x[key] == y[key] by {
        let i = lemma_key(a, key);
        lemma_entry(a, i);
        lemma_entry(b, i);
    }
    assert forall|key: Seq<char>| #[trigger] y.contains_key(key) implies x.contains_key(key) by {
        let i = lemma_key(b, key);
        lemma_entry(a, i);
        lemma_entry(b, i);
    }
    assert(x =~= y);
}

/// Copies attributes.
pub fn copy_attributes(attributes: &TextMap<String>) -> (r: TextMap<String>)
    ensures
        attributes_of(r@) == attributes_of(attributes@),
{
    let r = attributes.clone();
    proof {
        lemma_same_attributes(r.listing(), attributes.listing());
    }
    r
}

/// Adds an attribute, in place of the one that stood under its key.
pub fn put_attribute(attributes: &mut TextMap<String>, key: &str, value: &str)
    ensures
        attributes_of(final(attributes)@) == attributes_of(old(attributes)@).insert(key@, value@),
{
    let ghost before = attributes@;
    let text = value.to_string();
    attributes.insert(key.to_string(), text);
    assert(attributes_of(before.insert(key@, text)) =~= attributes_of(before).insert(key@, text@));
}

/// No attributes.
pub fn no_attributes() -> (r: TextMap<String>)
    ensures
        attributes_of(r@) == Map::<Seq<char>, Seq<char>>::empty(),
{
    let r = TextMap::new();
    assert(attributes_of(r@) =~= Map::<Seq<char>, Seq<char>>::empty());
    r
}

/// A single attribute.
pub fn one_attribute(key: &str, value: &str) -> (r: TextMap<String>)
    ensures
        attributes_of(r@) == Map::<Seq<char>, Seq<char>>::empty().insert(key@, value@),
{
    let mut r = no_attributes();
    put_attribute(&mut r, key, value);
    r
}

/// Appends samples to others.
pub fn append_samples(samples: &mut Vec<Sample>, more: Vec<Sample>)
    ensures
        samples_of(final(samples)@) == samples_of(old(samples)@) + samples_of(more@),
{
    let ghost before = samples@;
    let mut rest = more;
    samples.append(&mut rest);
    assert(samples_of(before + more@) =~= samples_of(before) + samples_of(more@));
}

impl Clone for Sample {
    fn clone(&self) -> (r: Self)
        ensures
            r@ == self@,
    {
        Sample {
            name: self.name.clone(),
            value: self.value,
            attributes: copy_attributes(&self.attributes),
            timestamp: self.timestamp,
        }
    }
}

/// Whether samples have one of a name, and give one value under that name.
pub open spec fn gives(list: Seq<SampleView>, name: Seq<char>, value: SampleValue) -> bool {
    &&& exists|i: int| 0 <= i < list.len() && (#[trigger] list[i]).name == name
    &&& forall|i: int|
        0 <= i < list.len() && (#[trigger] list[i]).name == name ==> list[i].value == value
}

/// Whether a sample has a name, and an attribute with a given value.
pub open spec fn has_attribute(
    sample: SampleView,
    name: Seq<char>,
    key: Seq<char>,
    text: Seq<char>,
) -> bool {
    sample.name == name && sample.attributes.contains_key(key) && sample.attributes[key] == text
}

/// Whether samples have one of a name whose attribute has a given value, and
/// give one value under that name and attribute.
pub open spec fn gives_for(
    list: Seq<SampleView>,
    name: Seq<char>,
    key: Seq<char>,
    text: Seq<char>,
    value: SampleValue,
) -> bool {
    &&& exists|i: int| 0 <= i < list.len() && has_attribute(#[trigger] list[i], name, key, text)
    &&& forall|i: int|
        0 <= i < list.len() && has_attribute(#[trigger] list[i], name, key, text)
            ==> list[i].value == value
}

/// The share of a value in a total is their quotient, and is nothing of an empty
/// total.
pub proof fn law_share_is_the_quotient(value: u64, total: u64)
    ensures
        share(value, total).denominator > 0,
        total > 0 ==> share(value, total).numerator == value && share(value, total).denominator
            == total,
        total == 0 ==> share(value, total).numerator == 0,
{
}

} // verus!
