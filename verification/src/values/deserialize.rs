//! From the value group of a keyframe to its providers.
use crate::json::{JsonValue, JsonView};
use crate::point_definition::borrowed_views;
use crate::values::base::BaseProviderValues;
use crate::values::static_values::StaticValues;
use crate::values::{ProviderView, ValueProvider};
use crate::modifiers::provider_views;
use vstd::prelude::*;

verus! {

/// Where a scan of a value group stands: the providers closed so far, the
/// numbers of the run that is open, and whether a run is open.
pub struct Scan {
    pub closed: Seq<ProviderView>,
    pub run: Seq<u32>,
    pub open: bool,
}

/// The providers of a scan with its open run closed: a run becomes one
/// constant provider of its numbers.
pub open spec fn closed_run(scan: Scan) -> Seq<ProviderView> {
    if scan.open {
        scan.closed.push(ProviderView::Static(scan.run))
    } else {
        scan.closed
    }
}

/// The scan after the first `n` elements. A string closes the open run and
/// becomes a lookup; any other element opens or continues a run, to which a
/// number adds itself.
pub open spec fn scanned(items: Seq<JsonView>, n: nat) -> Scan
    decreases n,
{
    if n == 0 || n > items.len() {
        Scan { closed: Seq::empty(), run: Seq::empty(), open: false }
    } else {
        let before = scanned(items, (n - 1) as nat);
        match items[n - 1] {
            JsonView::String(s) => Scan {
                closed: closed_run(before).push(ProviderView::BaseProvider(s)),
                run: Seq::empty(),
                open: false,
            },
            JsonView::Number(x) => Scan { closed: before.closed, run: before.run.push(x), open: true },
            _ => Scan { closed: before.closed, run: before.run, open: true },
        }
    }
}

/// The providers of a value group, left to right: each run of numbers before a
/// lookup is one constant provider, each lookup one lookup provider, and a
/// trailing run one last constant provider.
pub open spec fn providers_of(items: Seq<JsonView>) -> Seq<ProviderView> {
    closed_run(scanned(items, items.len()))
}

/// Builds the providers of a value group.
pub fn deserialize_values(value: &Vec<&JsonValue>) -> (r: Vec<ValueProvider>)
    ensures
        provider_views(r@) == providers_of(borrowed_views(value@)),
        forall|i: int| 0 <= i < r@.len() ==> (#[trigger] r@[i]@).wf(),
        forall|i: int| 0 <= i < r@.len() ==> (#[trigger] r@[i]@) is Static || r@[i]@ is BaseProvider,
{
    let ghost items = borrowed_views(value@);
    let mut result: Vec<ValueProvider> = Vec::new();
    let mut run: Vec<u32> = Vec::new();
    let mut open = false;
    let mut i: usize = 0;
    while i < value.len()
        invariant
            i <= value@.len(),
            items == borrowed_views(value@),
            provider_views(result@) == scanned(items, i as nat).closed,
            run@ == scanned(items, i as nat).run,
            open == scanned(items, i as nat).open,
            forall|k: int| 0 <= k < result@.len() ==> (#[trigger] result@[k]@).wf(),
            forall|k: int|
                0 <= k < result@.len() ==> (#[trigger] result@[k]@) is Static || result@[k]@ is BaseProvider,
        decreases value@.len() - i,
    {
        let item: &JsonValue = value[i];
        assert(items[i as int] == item@);
        match item {
            JsonValue::String(s) => {
                if open {
                    let ghost before = result@;
                    let provider = ValueProvider::Static(StaticValues::new(run));
                    result.push(provider);
                    assert(provider_views(result@) =~= provider_views(before).push(provider@));
                    run = Vec::new();
                    open = false;
                }
                let ghost before = result@;
                let provider = ValueProvider::BaseProvider(BaseProviderValues::new(s.clone()));
                result.push(provider);
                assert(provider_views(result@) =~= provider_views(before).push(provider@));
            },
            JsonValue::Number(x) => {
                run.push(*x);
                open = true;
            },
            _ => {
                open = true;
            },
        }
        i += 1;
    }
    if open {
        let ghost before = result@;
        let provider = ValueProvider::Static(StaticValues::new(run));
        result.push(provider);
        assert(provider_views(result@) =~= provider_views(before).push(provider@));
    }
    result
}

} // verus!
