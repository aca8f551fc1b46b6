use vstd::prelude::*;

use crate::error::Error;

verus! {

/// The address held after `i` dereferences: the start address for `i == 0`,
/// else the pointer value read at the `i`-th dereference.
pub open spec fn current_address(chain: Seq<usize>, reads: Seq<usize>, i: int) -> int {
    if i == 0 {
        chain[0] as int
    } else {
        reads[i - 1] as int
    }
}

/// The address read at dereference number `i` (from zero): the address held
/// so far plus the next offset of the chain.
pub open spec fn read_address(chain: Seq<usize>, reads: Seq<usize>, i: int) -> int {
    current_address(chain, reads, i) + chain[i + 1] as int
}

/// How many dereferences a chain asks for: one for each element but the
/// first and the last.
pub open spec fn dereference_count(chain: Seq<usize>) -> int {
    if chain.len() < 2 {
        0
    } else {
        chain.len() - 2
    }
}

/// The terminal address of a non-empty chain, given the pointer values read
/// at its dereferences: the last offset added to the address held after the
/// last dereference, with no further read. A single element is returned as
/// it stands.
pub open spec fn chain_end(chain: Seq<usize>, reads: Seq<usize>) -> int {
    if chain.len() == 1 {
        chain[0] as int
    } else {
        current_address(chain, reads, chain.len() - 2) + chain[chain.len() - 1] as int
    }
}

/// What to do next while resolving a pointer chain.
#[derive(Debug)]
pub enum ChainStep {
    /// Read a pointer-sized value at this address of the target process,
    /// and hand it back with the values read so far.
    Read(usize),
    /// Resolution is over, with this outcome.
    Done(Result<usize, Error>),
}

/// Follows a pointer chain one step, given the pointer values read so far
/// (`reads[i]` is the value read at the `i`-th dereference).
///
/// The first element is the start address, each element but the first and
/// the last is added to the current address and the sum is dereferenced, and
/// the last is added without a dereference. An empty chain fails, as does an
/// address that leaves the pointer range.
pub fn resolve_pointer_chain(chain: &[usize], reads: &[usize]) -> (r: ChainStep)
    ensures
        chain@.len() == 0 ==> r matches ChainStep::Done(Err(Error::ResolvePointerChainError(_))),
        chain@.len() > 0 && reads@.len() < dereference_count(chain@) ==> {
            let a = read_address(chain@, reads@, reads@.len() as int);
            if a <= usize::MAX {
                r == ChainStep::Read(a as usize)
            } else {
                r matches ChainStep::Done(Err(Error::ResolvePointerChainError(_)))
            }
        },
        chain@.len() > 0 && reads@.len() >= dereference_count(chain@) ==> {
            let e = chain_end(chain@, reads@);
            if e <= usize::MAX {
                r == ChainStep::Done(Ok(e as usize))
            } else {
                r matches ChainStep::Done(Err(Error::ResolvePointerChainError(_)))
            }
        },
{
    let n = chain.len();
    if n == 0 {
        return ChainStep::Done(Err(Error::ResolvePointerChainError("chain was empty".to_owned())));
    }
    if n == 1 {
        return ChainStep::Done(Ok(chain[0]));
    }
    let done = reads.len();
    let held: usize = if done < n - 2 {
        done
    } else {
        n - 2
    };
    let current = if held == 0 {
        chain[0]
    } else {
        reads[held - 1]
    };
    let offset = if done < n - 2 {
        chain[done + 1]
    } else {
        chain[n - 1]
    };
    match current.checked_add(offset) {
        Some(address) => {
            if done < n - 2 {
                ChainStep::Read(address)
            } else {
                ChainStep::Done(Ok(address))
            }
        },
        None => ChainStep::Done(
            Err(Error::ResolvePointerChainError("address overflowed".to_owned())),
        ),
    }
}

} // verus!
