//! The sector reader: the authenticate-then-read walk over the whole card.
//!
//! Card memory is 16 sectors of 4 blocks of 16 bytes.  Each sector is
//! authenticated once, through its first block; on success its four blocks
//! are read in order, a failed single read contributing a zero-filled
//! block; on failure the whole sector contributes 64 zero bytes and no
//! retry is made.  The walk is kept here as a state machine: the caller
//! that owns the bus asks for the next action, performs it, and feeds the
//! outcome back.  Whatever the outcomes, a finished walk has assembled
//! exactly 1024 bytes.

use vstd::prelude::*;

verus! {

/// Sectors on a card.
pub const SECTOR_COUNT: u8 = 16;

/// Blocks in a sector.
pub const BLOCKS_PER_SECTOR: u8 = 4;

/// Bytes in a block.
pub const BLOCK_SIZE: usize = 16;

/// Bytes in a finished dump.
pub const DUMP_SIZE: usize = 1024;

/// A run of zero bytes.
pub open spec fn zeros(n: nat) -> Seq<u8> {
    Seq::new(n, |i: int| 0u8)
}

/// The next bus operation the reader asks for.
#[derive(Clone, Copy, Debug, PartialEq, Eq, Structural)]
pub enum ReaderAction {
    /// Authenticate the sector that starts at this block number.
    Authenticate { block: u8 },
    /// Read this block.
    ReadBlock { block: u8 },
    /// The dump is complete.
    Done,
}

enum Phase {
    Auth,
    Read,
    Done,
}

/// The state of one whole-card read.
pub struct SectorReader {
    dump: Vec<u8>,
    sector: u8,
    block: u8,
    phase: Phase,
}

impl SectorReader {
    /// The bytes assembled so far, in sector-then-block order.
    pub closed spec fn spec_dump(self) -> Seq<u8> {
        self.dump@
    }

    /// The sector the reader currently works on.
    pub closed spec fn spec_sector(self) -> u8 {
        self.sector
    }

    /// The block inside the current sector, once it is authenticated.
    pub closed spec fn spec_block(self) -> u8 {
        self.block
    }

    /// Whether the walk has covered the whole card.
    pub closed spec fn spec_done(self) -> bool {
        self.phase is Done
    }

    /// The action the reader asks for in its current state.
    pub closed spec fn spec_action(self) -> ReaderAction {
        match self.phase {
            Phase::Auth => ReaderAction::Authenticate { block: (self.sector * 4) as u8 },
            Phase::Read => ReaderAction::ReadBlock { block: (self.sector * 4 + self.block) as u8 },
            Phase::Done => ReaderAction::Done,
        }
    }

    /// Internal consistency: the dump has grown in lockstep with the
    /// position, so that a finished walk holds exactly the fixed size.
    pub closed spec fn wf(self) -> bool {
        match self.phase {
            Phase::Auth => self.sector < SECTOR_COUNT && self.block == 0 && self.dump@.len() == 64
                * self.sector,
            Phase::Read => self.sector < SECTOR_COUNT && self.block < BLOCKS_PER_SECTOR
                && self.dump@.len() == 64 * self.sector + 16 * self.block,
            Phase::Done => self.sector == SECTOR_COUNT && self.dump@.len() == DUMP_SIZE,
        }
    }

    /// A reader at the start of the card, about to authenticate sector
    /// zero, with an empty dump.
    pub fn new() -> (r: SectorReader)
        ensures
            r.wf(),
            !r.spec_done(),
            r.spec_dump() == Seq::<u8>::empty(),
            r.spec_sector() == 0,
            r.spec_action() == (ReaderAction::Authenticate { block: 0u8 }),
    {
        SectorReader { dump: Vec::new(), sector: 0, block: 0, phase: Phase::Auth }
    }

    /// The next operation to perform on the bus.
    pub fn next_action(&self) -> (r: ReaderAction)
        requires
            self.wf(),
        ensures
            r == self.spec_action(),
    {
        match self.phase {
            Phase::Auth => ReaderAction::Authenticate { block: self.sector * 4 },
            Phase::Read => ReaderAction::ReadBlock { block: self.sector * 4 + self.block },
            Phase::Done => ReaderAction::Done,
        }
    }

    /// Whether the walk has covered the whole card.
    pub fn is_done(&self) -> (r: bool)
        ensures
            r == self.spec_done(),
    {
        match self.phase {
            Phase::Done => true,
            _ => false,
        }
    }

    /// Feeds the outcome of the authentication the reader asked for.  On
    /// success the four blocks of the sector are read next; on failure the
    /// whole sector is zero-filled and the walk moves to the next sector
    /// without a retry.
    pub fn on_auth_result(&mut self, success: bool)
        requires
            old(self).wf(),
            old(self).spec_action() matches ReaderAction::Authenticate { .. },
        ensures
            final(self).wf(),
            success ==> final(self).spec_dump() == old(self).spec_dump() && final(self).spec_action()
                == (ReaderAction::ReadBlock { block: (old(self).spec_sector() * 4) as u8 }),
            !success ==> final(self).spec_dump() == old(self).spec_dump() + zeros(64),
            !success && old(self).spec_sector() < 15 ==> final(self).spec_action()
                == (ReaderAction::Authenticate { block: ((old(self).spec_sector() + 1) * 4) as u8 }),
            !success && old(self).spec_sector() == 15 ==> final(self).spec_done(),
            final(self).spec_done() <==> (!success && old(self).spec_sector() == 15),
    {
        if success {
            self.phase = Phase::Read;
        } else {
            push_zeros(&mut self.dump, 64);
            self.advance_sector();
        }
    }

    /// Feeds a successfully read block: its sixteen bytes join the dump
    /// and the walk moves to the next block, or to the next sector's
    /// authentication after the fourth.
    pub fn on_block_read(&mut self, block: &[u8])
        requires
            old(self).wf(),
            old(self).spec_action() matches ReaderAction::ReadBlock { .. },
            block@.len() == 16,
        ensures
            final(self).wf(),
            final(self).spec_dump() == old(self).spec_dump() + block@,
            next_after_block(*old(self), *final(self)),
    {
        let mut j: usize = 0;
        while j < 16
            invariant
                j <= 16,
                block@.len() == 16,
                self.dump@ == old(self).dump@ + block@.subrange(0, j as int),
                self.sector == old(self).sector,
                self.block == old(self).block,
                self.phase == old(self).phase,
            decreases 16 - j,
        {
            self.dump.push(block[j]);
            proof {
                assert(old(self).dump@ + block@.subrange(0, j + 1) =~= (old(self).dump@
                    + block@.subrange(0, j as int)) + seq![block@[j as int]]);
            }
            j = j + 1;
        }
        assert(block@.subrange(0, 16) =~= block@);
        self.advance_block();
    }

    /// Feeds a failed block read: a zero-filled block joins the dump in
    /// its place and the walk continues exactly as after a successful
    /// read.
    pub fn on_block_failed(&mut self)
        requires
            old(self).wf(),
            old(self).spec_action() matches ReaderAction::ReadBlock { .. },
        ensures
            final(self).wf(),
            final(self).spec_dump() == old(self).spec_dump() + zeros(16),
            next_after_block(*old(self), *final(self)),
    {
        push_zeros(&mut self.dump, 16);
        self.advance_block();
    }

    /// Hands the finished dump out.
    pub fn into_dump(self) -> (r: Vec<u8>)
        requires
            self.wf(),
            self.spec_done(),
        ensures
            r@ == self.spec_dump(),
            r@.len() == DUMP_SIZE,
    {
        self.dump
    }

    fn advance_sector(&mut self)
        requires
            old(self).sector < 16,
        ensures
            final(self).sector == old(self).sector + 1,
            final(self).block == 0,
            final(self).dump@ == old(self).dump@,
            old(self).sector < 15 ==> final(self).phase is Auth,
            old(self).sector == 15 ==> final(self).phase is Done,
    {
        self.sector = self.sector + 1;
        self.block = 0;
        if self.sector == 16 {
            self.phase = Phase::Done;
        } else {
            self.phase = Phase::Auth;
        }
    }

    fn advance_block(&mut self)
        requires
            old(self).block < 4,
            old(self).sector < 16,
        ensures
            final(self).dump@ == old(self).dump@,
            old(self).block < 3 ==> final(self).sector == old(self).sector && final(self).block
                == old(self).block + 1 && final(self).phase is Read,
            old(self).block == 3 ==> final(self).sector == old(self).sector + 1,
            old(self).block == 3 ==> final(self).block == 0,
            old(self).block == 3 && old(self).sector < 15 ==> final(self).phase is Auth,
            old(self).block == 3 && old(self).sector == 15 ==> final(self).phase is Done,
    {
        if self.block < 3 {
            self.block = self.block + 1;
            self.phase = Phase::Read;
        } else {
            self.advance_sector();
        }
    }
}

/// Where the walk stands after a block outcome: the next block of the same
/// sector after the first three, the next sector's authentication after
/// the fourth, and the end of the card after the fourth block of the last
/// sector.
pub open spec fn next_after_block(before: SectorReader, after: SectorReader) -> bool {
    &&& before.spec_block() < 3 ==> after.spec_action() == (ReaderAction::ReadBlock {
        block: (before.spec_sector() * 4 + before.spec_block() + 1) as u8,
    })
    &&& before.spec_block() == 3 && before.spec_sector() < 15 ==> after.spec_action()
        == (ReaderAction::Authenticate { block: ((before.spec_sector() + 1) * 4) as u8 })
    &&& (after.spec_done() <==> (before.spec_block() == 3 && before.spec_sector() == 15))
}

/// Appends `n` zero bytes.
fn push_zeros(dump: &mut Vec<u8>, n: usize)
    requires
        old(dump)@.len() + n <= usize::MAX,
    ensures
        final(dump)@ == old(dump)@ + zeros(n as nat),
{
    let mut k: usize = 0;
    while k < n
        invariant
            k <= n,
            dump@ == old(dump)@ + zeros(k as nat),
        decreases n - k,
    {
        dump.push(0);
        proof {
            assert(old(dump)@ + zeros((k + 1) as nat) =~= (old(dump)@ + zeros(k as nat)) + seq![
                0u8,
            ]);
        }
        k = k + 1;
    }
}

/// Law: a finished walk has assembled exactly 64 blocks of 16 bytes,
/// whatever combination of authentication and read failures it met.
pub proof fn lemma_dump_length_fixed(r: SectorReader)
    requires
        r.wf(),
        r.spec_done(),
    ensures
        r.spec_dump().len() == DUMP_SIZE,
{
}

} // verus!
