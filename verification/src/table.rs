use crate::driver::same_config;
use crate::driver::StubDriver;
use vstd::prelude::*;

verus! {

/// An extension family's resolved entry points, one address per required
/// symbol, in the family's fixed symbol order.
///
/// The table is populated once, at construction, and never changes
/// afterwards.  A slot may hold zero: the loader found no such entry point,
/// which this layer accepts at construction time and which callers must rule
/// out, by checking extension support, before the slot is invoked.
#[derive(Clone)]
pub struct FunctionTable {
    pub addrs: Vec<u64>,
}

impl View for FunctionTable {
    type V = Seq<u64>;

    open spec fn view(&self) -> Seq<u64> {
        self.addrs@
    }
}

impl FunctionTable {
    /// Resolves `symbols` through the context's loader, one call per symbol,
    /// in the given order, and returns the table of their addresses.
    pub fn load(entry: &mut StubDriver, instance: u64, symbols: &Vec<u64>) -> (t: FunctionTable)
        ensures
            same_config(*old(entry), *final(entry)),
            final(entry).call_log@ == old(entry).call_log@,
            final(entry).resolve_log@ == old(entry).resolve_log@ + symbols@,
            t@.len() == symbols@.len(),
            forall|i: int|
                0 <= i < symbols@.len() ==> t@[i] == old(entry).addr_of(#[trigger] symbols@[i]),
    {
        let mut addrs: Vec<u64> = Vec::new();
        let mut i: usize = 0;
        #[verifier::loop_isolation(false)]
        while i < symbols.len()
            invariant
                i <= symbols@.len(),
                addrs@.len() == i,
                same_config(*old(entry), *entry),
                entry.call_log@ == old(entry).call_log@,
                entry.resolve_log@ == old(entry).resolve_log@ + symbols@.take(i as int),
                forall|j: int|
                    0 <= j < i ==> addrs@[j] == old(entry).addr_of(#[trigger] symbols@[j]),
            decreases symbols@.len() - i,
        {
            let a = entry.get_instance_proc_addr(instance, symbols[i]);
            addrs.push(a);
            proof {
                assert((old(entry).resolve_log@ + symbols@.take(i as int)).push(
                    symbols@[i as int],
                ) =~= old(entry).resolve_log@ + symbols@.take(i + 1 as int));
            }
            i = i + 1;
        }
        proof {
            assert(symbols@.take(i as int) =~= symbols@);
        }
        FunctionTable { addrs }
    }

    /// The number of slots in the table.
    pub fn len(&self) -> (n: usize)
        ensures
            n == self@.len(),
    {
        self.addrs.len()
    }

    /// The address stored in slot `i`.
    pub fn entry_point(&self, i: usize) -> (a: u64)
        requires
            i < self@.len(),
        ensures
            a == self@[i as int],
    {
        self.addrs[i]
    }

    /// Whether slot `i` holds a resolved, non-null entry point.
    pub fn is_resolved(&self, i: usize) -> (b: bool)
        requires
            i < self@.len(),
        ensures
            b == (self@[i as int] != 0),
    {
        self.addrs[i] != 0
    }
}

} // verus!
