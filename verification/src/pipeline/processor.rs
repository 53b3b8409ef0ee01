//! Stages between providers and sinks.

use std::sync::Arc;

use vstd::prelude::*;

use crate::pipeline::sample::Sample;

verus! {

/// A pipeline stage between providers and sinks: sees every sample and may
/// change it or drop it.
///
/// Processors are synchronous like providers: the runner decides when samples
/// flow, the processor only decides what happens to each one. A processor may
/// keep state, so that one sample can fare differently at different times.
pub trait Processor: Send + Sync {
    /// What may come of a sample: what replaces it, or nothing. A processor
    /// that does not say more leaves both open.
    open spec fn may_process(&self, sample: Sample, r: Option<Sample>) -> bool {
        true
    }

    /// Stable name, e.g. `"name_filter"`. Used in config and CLI output.
    fn name(&self) -> &'static str;

    /// Processes one sample, returning `None` to drop it from the pipeline.
    fn process(&self, sample: Sample) -> (r: Option<Sample>)
        ensures
            self.may_process(sample, r),
    ;
}

/// What may come of a sample that goes through processors in order: nothing,
/// as soon as one drops it.
pub open spec fn chain_may_process(
    processors: Seq<Arc<dyn Processor>>,
    sample: Sample,
    r: Option<Sample>,
) -> bool
    decreases processors.len(),
{
    if processors.len() == 0 {
        r == Some(sample)
    } else {
        exists|mid: Option<Sample>|
            {
                &&& #[trigger] processors[0].may_process(sample, mid)
                &&& match mid {
                    Some(next) => chain_may_process(processors.skip(1), next, r),
                    None => r is None,
                }
            }
    }
}

proof fn lemma_chain_extends(
    processors: Seq<Arc<dyn Processor>>,
    n: int,
    sample: Sample,
    current: Sample,
    mid: Option<Sample>,
)
    requires
        0 <= n < processors.len(),
        chain_may_process(processors.take(n), sample, Some(current)),
        processors[n].may_process(current, mid),
    ensures
        chain_may_process(processors.take(n + 1), sample, mid),
    decreases n,
{
    let longer = processors.take(n + 1);
    if n == 0 {
        assert(longer[0] == processors[0]);
        if mid is Some {
            assert(chain_may_process(longer.skip(1), mid->0, mid));
        }
    } else {
        let shorter = processors.take(n);
        let rest = processors.skip(1);
        assert(shorter.skip(1) == rest.take(n - 1));
        assert(longer.skip(1) == rest.take(n));
        let first = choose|m: Option<Sample>|
            {
                &&& #[trigger] shorter[0].may_process(sample, m)
                &&& match m {
                    Some(next) => chain_may_process(shorter.skip(1), next, Some(current)),
                    None => Some(current) is None,
                }
            };
        assert(longer[0] == shorter[0]);
        assert(rest[n - 1] == processors[n]);
        lemma_chain_extends(rest, n - 1, first->0, current, mid);
        assert(longer[0].may_process(sample, first));
    }
}

proof fn lemma_dropped_stays_dropped(
    processors: Seq<Arc<dyn Processor>>,
    n: int,
    sample: Sample,
)
    requires
        0 <= n <= processors.len(),
        chain_may_process(processors.take(n), sample, None),
    ensures
        chain_may_process(processors, sample, None),
    decreases n,
{
    let head = processors.take(n);
    if n > 0 {
        let first = choose|m: Option<Sample>|
            {
                &&& #[trigger] head[0].may_process(sample, m)
                &&& match m {
                    Some(next) => chain_may_process(head.skip(1), next, None),
                    None => true,
                }
            };
        assert(head[0] == processors[0]);
        if first is Some {
            assert(head.skip(1) == processors.skip(1).take(n - 1));
            lemma_dropped_stays_dropped(processors.skip(1), n - 1, first->0);
        }
        assert(processors[0].may_process(sample, first));
    }
}

/// Runs a sample through every processor in order.
///
/// Returns `None` as soon as one processor drops the sample.
pub fn process_sample(processors: &[Arc<dyn Processor>], sample: Sample) -> (r: Option<Sample>)
    ensures
        chain_may_process(processors@, sample, r),
{
    let n: usize = processors.len();
    let ghost start = sample;
    let mut current = sample;
    for i in 0..n
        invariant
            n == processors@.len(),
            start == sample,
            chain_may_process(processors@.take(i as int), start, Some(current)),
    {
        let ghost before = current;
        match processors[i].process(current) {
            Some(next) => {
                proof {
                    lemma_chain_extends(processors@, i as int, start, before, Some(next));
                }
                current = next;
            },
            None => {
                proof {
                    lemma_chain_extends(processors@, i as int, start, before, None);
                    lemma_dropped_stays_dropped(processors@, i + 1, start);
                }
                return None;
            },
        }
    }
    assert(processors@.take(n as int) == processors@);
    Some(current)
}

/// Processors in order are those of a first part and then those of the rest.
pub proof fn law_chains_compose(
    a: Seq<Arc<dyn Processor>>,
    b: Seq<Arc<dyn Processor>>,
    sample: Sample,
    r: Option<Sample>,
)
    ensures
        chain_may_process(a + b, sample, r) <==> exists|mid: Option<Sample>|
            {
                &&& #[trigger] chain_may_process(a, sample, mid)
                &&& match mid {
                    Some(next) => chain_may_process(b, next, r),
                    None => r is None,
                }
            },
    decreases a.len(),
{
    let whole = a + b;
    if a.len() == 0 {
        assert(whole == b);
        assert(chain_may_process(a, sample, Some(sample)));
    } else {
        assert(whole[0] == a[0]);
        assert(whole.skip(1) == a.skip(1) + b);
        if chain_may_process(whole, sample, r) {
            let first = choose|m: Option<Sample>|
                {
                    &&& #[trigger] whole[0].may_process(sample, m)
                    &&& match m {
                        Some(next) => chain_may_process(whole.skip(1), next, r),
                        None => r is None,
                    }
                };
            assert(a[0].may_process(sample, first));
            if first is Some {
                law_chains_compose(a.skip(1), b, first->0, r);
                let mid = choose|mid: Option<Sample>|
                    {
                        &&& #[trigger] chain_may_process(a.skip(1), first->0, mid)
                        &&& match mid {
                            Some(next) => chain_may_process(b, next, r),
                            None => r is None,
                        }
                    };
                assert(chain_may_process(a, sample, mid));
            } else {
                assert(chain_may_process(a, sample, None));
            }
        }
        if exists|mid: Option<Sample>|
            {
                &&& #[trigger] chain_may_process(a, sample, mid)
                &&& match mid {
                    Some(next) => chain_may_process(b, next, r),
                    None => r is None,
                }
            } {
            let mid = choose|mid: Option<Sample>|
                {
                    &&& #[trigger] chain_may_process(a, sample, mid)
                    &&& match mid {
                        Some(next) => chain_may_process(b, next, r),
                        None => r is None,
                    }
                };
            let first = choose|m: Option<Sample>|
                {
                    &&& #[trigger] a[0].may_process(sample, m)
                    &&& match m {
                        Some(next) => chain_may_process(a.skip(1), next, mid),
                        None => mid is None,
                    }
                };
            if first is Some {
                law_chains_compose(a.skip(1), b, first->0, r);
            }
            assert(whole[0].may_process(sample, first));
        }
    }
}

/// No processors leave every sample as it is.
pub proof fn law_empty_chain_keeps(sample: Sample, r: Option<Sample>)
    ensures
        chain_may_process(Seq::<Arc<dyn Processor>>::empty(), sample, r) <==> r == Some(sample),
{
}

/// A chain of one processor does what that processor does.
pub proof fn law_chain_of_one_is_its_processor(
    one: Seq<Arc<dyn Processor>>,
    sample: Sample,
    r: Option<Sample>,
)
    requires
        one.len() == 1,
    ensures
        chain_may_process(one, sample, r) <==> one[0].may_process(sample, r),
{
    assert(one.skip(1) =~= Seq::<Arc<dyn Processor>>::empty());
    if chain_may_process(one, sample, r) {
        let mid = choose|m: Option<Sample>|
            {
                &&& #[trigger] one[0].may_process(sample, m)
                &&& match m {
                    Some(next) => chain_may_process(one.skip(1), next, r),
                    None => r is None,
                }
            };
        assert(mid == r);
    }
    if one[0].may_process(sample, r) {
        if r is Some {
            assert(chain_may_process(one.skip(1), r->0, r));
        }
    }
}

} // verus!
