use vstd::prelude::*;
use crate::error::{ErrorKind, HotStuffError};
use crate::types::block::Block;

verus! {

/// Picks the latest of the blocks read back from a persistent store, scanning them in order: a
/// block replaces the current pick only when its height is strictly greater, starting from
/// height 0, so the first block of greatest height wins and blocks of height 0 are never picked.
/// Fails with a storage error when no block has a height above 0.
pub fn select_latest(blocks: Vec<Block>) -> (r: Result<Block, HotStuffError>)
    ensures
        r is Err <==> forall|i: int| 0 <= i < blocks@.len() ==> #[trigger] blocks@[i].height == 0,
        r is Err ==> r->Err_0.kind() == ErrorKind::Storage && r->Err_0.message() == "No blocks found"@,
        r is Ok ==> exists|i: int| {
            &&& 0 <= i < blocks@.len()
            &&& #[trigger] blocks@[i]@ == r->Ok_0@
            &&& blocks@[i].height > 0
            &&& forall|j: int| 0 <= j < blocks@.len() ==> #[trigger] blocks@[j].height <= blocks@[i].height
            &&& forall|j: int| 0 <= j < i ==> #[trigger] blocks@[j].height < blocks@[i].height
        },
{
    let ghost input = blocks@;
    let mut blocks = blocks;
    let mut best: Option<usize> = None;
    let mut latest_height: u64 = 0;
    let mut i: usize = 0;
    while i < blocks.len()
        invariant
            i <= blocks@.len(),
            best is None ==> latest_height == 0 && forall|j: int| 0 <= j < i ==> #[trigger] blocks@[j].height == 0,
            best is Some ==> {
                let b = best->Some_0 as int;
                &&& 0 <= b < i
                &&& blocks@[b].height == latest_height
                &&& latest_height > 0
                &&& forall|j: int| 0 <= j < i ==> #[trigger] blocks@[j].height <= latest_height
                &&& forall|j: int| 0 <= j < b ==> #[trigger] blocks@[j].height < latest_height
            },
        decreases blocks@.len() - i,
    {
        if blocks[i].height > latest_height {
            latest_height = blocks[i].height;
            best = Some(i);
        }
        i = i + 1;
    }
    match best {
        Some(b) => {
            let block = blocks.remove(b);
            assert(input[b as int] == block);
            assert(input[b as int]@ == block@);
            Ok(block)
        },
        None => Err(HotStuffError::storage("No blocks found")),
    }
}

} // verus!
