use vstd::prelude::*;

verus! {

/// One confirmed block of the ledger, keyed by its blockhash. The slot
/// number is the block's logical position in the ledger's timeline.
#[derive(Debug)]
pub struct Block {
    pub id: String,
    pub previous_blockhash: String,
    pub slot: u64,
    pub block_time: Option<i64>,
    pub block_height: Option<u64>,
}

/// The mathematical value of a `Block`.
pub struct BlockView {
    pub id: Seq<char>,
    pub previous_blockhash: Seq<char>,
    pub slot: u64,
    pub block_time: Option<i64>,
    pub block_height: Option<u64>,
}

impl View for Block {
    type V = BlockView;

    open spec fn view(&self) -> BlockView {
        BlockView {
            id: self.id@,
            previous_blockhash: self.previous_blockhash@,
            slot: self.slot,
            block_time: self.block_time,
            block_height: self.block_height,
        }
    }
}

impl Clone for Block {
    fn clone(&self) -> (r: Self)
        ensures
            r@ == self@,
    {
        Block {
            id: self.id.clone(),
            previous_blockhash: self.previous_blockhash.clone(),
            slot: self.slot,
            block_time: self.block_time,
            block_height: self.block_height,
        }
    }
}

impl PartialEq for Block {
    fn eq(&self, other: &Self) -> (r: bool) {
        let time_eq = match (self.block_time, other.block_time) {
            (Some(a), Some(b)) => a == b,
            (None, None) => true,
            _ => false,
        };
        let height_eq = match (self.block_height, other.block_height) {
            (Some(a), Some(b)) => a == b,
            (None, None) => true,
            _ => false,
        };
        self.id == other.id && self.previous_blockhash == other.previous_blockhash
            && self.slot == other.slot && time_eq && height_eq
    }
}

impl vstd::std_specs::cmp::PartialEqSpecImpl for Block {
    open spec fn obeys_eq_spec() -> bool {
        true
    }

    open spec fn eq_spec(&self, other: &Self) -> bool {
        self@ == other@
    }
}

} // verus!
