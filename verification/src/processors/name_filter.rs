//! A processor that keeps samples by name.

use vstd::prelude::*;

use crate::config::runtime::strings;
use crate::pipeline::processor::Processor;
use crate::pipeline::sample::Sample;
use crate::text::starts_with;

verus! {

/// Keeps samples whose name starts with one of the configured prefixes,
/// drops the rest. An empty prefix list keeps everything.
pub struct NameFilter {
    prefixes: Vec<String>,
}

/// Whether a name passes a list of prefixes.
pub open spec fn name_passes(prefixes: Seq<Seq<char>>, name: Seq<char>) -> bool {
    prefixes.len() == 0 || exists|i: int|
        0 <= i < prefixes.len() && (#[trigger] prefixes[i]).is_prefix_of(name)
}

impl NameFilter {
    /// The prefixes that pass.
    pub closed spec fn kept(&self) -> Seq<Seq<char>> {
        strings(self.prefixes@)
    }

    /// Creates a filter keeping names starting with any of `prefixes`.
    pub fn new(prefixes: Vec<String>) -> (r: Self)
        ensures
            r.kept() == strings(prefixes@),
    {
        NameFilter { prefixes }
    }
}

impl Processor for NameFilter {
    open spec fn may_process(&self, sample: Sample, r: Option<Sample>) -> bool {
        r == if name_passes(self.kept(), sample.name@) {
            Some(sample)
        } else {
            None
        }
    }

    fn name(&self) -> (r: &'static str)
        ensures
            r@ == "name_filter"@,
    {
        "name_filter"
    }

    fn process(&self, sample: Sample) -> (r: Option<Sample>) {
        let n: usize = self.prefixes.len();
        if n == 0 {
            return Some(sample);
        }
        for i in 0..n
            invariant
                n == self.prefixes@.len(),
                n > 0,
                forall|k: int|
                    0 <= k < i ==> !(#[trigger] self.kept()[k]).is_prefix_of(sample.name@),
        {
            if starts_with(sample.name.as_str(), self.prefixes[i].as_str()) {
                assert(self.kept()[i as int].is_prefix_of(sample.name@));
                return Some(sample);
            }
        }
        None
    }
}

/// A filter without prefixes keeps everything.
pub proof fn law_no_prefixes_keep_everything(name: Seq<char>)
    ensures
        name_passes(Seq::empty(), name),
{
}

/// More prefixes let no fewer names pass, once there is one.
pub proof fn law_more_prefixes_keep_more(
    prefixes: Seq<Seq<char>>,
    more: Seq<Seq<char>>,
    name: Seq<char>,
)
    requires
        prefixes.len() > 0,
        name_passes(prefixes, name),
    ensures
        name_passes(prefixes + more, name),
{
    let i = choose|i: int|
        0 <= i < prefixes.len() && (#[trigger] prefixes[i]).is_prefix_of(name);
    assert((prefixes + more)[i] == prefixes[i]);
}

/// With prefixes given, a name is kept just where it is one of them with something
/// after it, or nothing.
pub proof fn law_names_are_kept_by_prefix(prefix: Seq<char>, more: Seq<Seq<char>>, name: Seq<char>)
    ensures
        name_passes(seq![prefix], prefix + name),
        !prefix.is_prefix_of(name) ==> !name_passes(seq![prefix], name),
        more.len() > 0 ==> (name_passes(seq![prefix] + more, name) <==> prefix.is_prefix_of(name)
            || name_passes(more, name)),
{
    let one = seq![prefix];
    assert(one[0].is_prefix_of(prefix + name));
    let all = one + more;
    if name_passes(all, name) {
        let i = choose|i: int| 0 <= i < all.len() && (#[trigger] all[i]).is_prefix_of(name);
        if i > 0 {
            assert(more[i - 1] == all[i]);
        }
    }
    if prefix.is_prefix_of(name) {
        assert(all[0].is_prefix_of(name));
    }
    if more.len() > 0 && name_passes(more, name) {
        let i = choose|i: int| 0 <= i < more.len() && (#[trigger] more[i]).is_prefix_of(name);
        assert(all[i + 1] == more[i]);
    }
}

/// A filter gives a sample on as it is, or not at all; and gives it on just where
/// its name is kept.
pub proof fn law_filter_keeps_samples_whole(filter: NameFilter, sample: Sample, r: Option<Sample>)
    requires
        filter.may_process(sample, r),
    ensures
        r is Some <==> name_passes(filter.kept(), sample.name@),
        r is Some ==> r->0 == sample,
{
}

} // verus!
