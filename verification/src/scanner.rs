//! The key/sector discovery state machine.  For every sector it tries
//! an ordered candidate key list under both key types, authenticating
//! against the sector's first block; the first key that authenticates
//! a key type wins and the sector's blocks are read under it.  The
//! manufacturer block (sector 0, block 0) is skipped by policy, a
//! failed block read is recorded and the scan goes on, and a sector no
//! combination opens is reported as inaccessible without disturbing
//! any other sector.
//!
//! Transmission is the driver's job: it asks `next_request` what to
//! send, performs it, and hands the outcome to `step`.

use vstd::prelude::*;
use crate::apdu::KeyType;
use crate::error::MifareError;

verus! {

/// What the scan did to one block of an authenticated sector.
pub enum BlockOutcome {
    /// The block was read; carries its bytes.
    Data(Vec<u8>),
    /// The manufacturer block, present but intentionally not read.
    Skipped,
    /// The read failed; the sector scan went on regardless.
    Failed(MifareError),
}

/// One block of a sector, with what the scan did to it.
pub struct BlockReport {
    pub block: u8,
    pub outcome: BlockOutcome,
}

/// The blocks visited under one key type, and which candidate key
/// (by its position in the ordered list) authenticated them.
pub struct KeyTypeReport {
    pub key_type: KeyType,
    pub key_index: usize,
    pub blocks: Vec<BlockReport>,
}

/// One sector's outcome: a report for every key type that
/// authenticated.  An empty list means no key/key-type combination
/// opened the sector.
pub struct SectorReport {
    pub sector: u8,
    pub reads: Vec<KeyTypeReport>,
}

impl SectorReport {
    /// Whether some key/key-type combination authenticated.
    pub fn accessible(&self) -> (r: bool)
        ensures
            r == (self.reads@.len() > 0),
    {
        self.reads.len() > 0
    }
}

/// Where the scanner stands inside the current sector.
#[derive(Clone, Copy, Debug, PartialEq, Eq, Structural)]
pub enum ScanPhase {
    /// About to load the current candidate key.
    LoadKey,
    /// Key loaded; about to authenticate the sector's first block.
    Authenticate,
    /// Authenticated; the block at this offset is read next.
    ReadBlocks { offset: u8 },
    /// Every sector is finished.
    Done,
}

/// The next transmission the scanner asks its driver to perform.
pub enum ScanRequest {
    /// Load this candidate key into the reader.
    LoadKey { key: Vec<u8> },
    /// Authenticate this block with this key type.
    Authenticate { block: u8, key_type: KeyType },
    /// Read this block.
    ReadBlock { block: u8 },
    /// Nothing is left to do.
    Finished,
}

/// The report one read outcome adds for the block at `offset` of
/// `sector`: its data on success, the error on failure.
pub open spec fn spec_block_record(
    sector: u8,
    offset: u8,
    outcome: Result<Vec<u8>, MifareError>,
) -> BlockReport {
    BlockReport {
        block: (sector * 4 + offset) as u8,
        outcome: match outcome {
            Ok(data) => BlockOutcome::Data(data),
            Err(e) => BlockOutcome::Failed(e),
        },
    }
}

/// The key/sector scanner.  Drive it by alternating `next_request`
/// with `step` until `done`; `results` then holds one report per
/// sector, in order.
pub struct Scanner {
    /// The ordered candidate key list, tried front to back.
    pub keys: Vec<Vec<u8>>,
    /// How many sectors the scan covers.
    pub n_sectors: u8,
    /// The sector being scanned.
    pub sector: u8,
    /// The key type being tried.
    pub key_type: KeyType,
    /// The candidate being tried, an index into `keys`.
    pub key_index: usize,
    /// Where the scanner stands.
    pub phase: ScanPhase,
    /// Block reports of the key-type pass being read, in block order.
    pub pending: Vec<BlockReport>,
    /// The report being built for the current sector.
    pub current: SectorReport,
    /// Finished sectors, in order; never modified again.
    pub results: Vec<SectorReport>,
}

impl Scanner {
    /// Positions stay in range and the accumulated reports line up
    /// with the position.
    pub open spec fn wf(self) -> bool {
        &&& self.n_sectors <= 64
        &&& if self.phase is Done {
            self.results@.len() == self.n_sectors
        } else {
            &&& self.sector < self.n_sectors
            &&& self.results@.len() == self.sector
            &&& self.key_index < self.keys@.len()
            &&& self.current.sector == self.sector
        }
        &&& (self.phase matches ScanPhase::ReadBlocks { offset } ==> offset < 4 && (self.sector
            == 0 ==> offset >= 1))
        &&& (self.phase is LoadKey || self.phase is Authenticate ==> self.pending@.len() == 0)
    }

    /// Whether every sector is finished.
    pub open spec fn spec_done(self) -> bool {
        self.phase is Done
    }

    /// Whether every sector is finished.
    pub fn done(&self) -> (r: bool)
        ensures
            r == self.spec_done(),
    {
        matches!(self.phase, ScanPhase::Done)
    }

    /// The candidate list and sector count never change.
    pub open spec fn same_config(self, o: Scanner) -> bool {
        self.keys == o.keys && self.n_sectors == o.n_sectors
    }

    /// Sector, key type and candidate index unchanged.
    pub open spec fn same_position(self, o: Scanner) -> bool {
        self.sector == o.sector && self.key_type == o.key_type && self.key_index == o.key_index
    }

    /// Accumulated reports unchanged.
    pub open spec fn same_reports(self, o: Scanner) -> bool {
        self.results == o.results && self.current == o.current && self.pending == o.pending
    }

    /// Where a failed key trial sends the scanner: the next candidate
    /// key in order; else key type B, restarting at the first
    /// candidate; else the sector closes as it stands (inaccessible if
    /// nothing authenticated) and the next sector, or the end, begins.
    pub open spec fn advanced_trial(self, post: Scanner) -> bool {
        if self.key_index + 1 < self.keys@.len() {
            &&& post.phase is LoadKey
            &&& post.sector == self.sector
            &&& post.key_type == self.key_type
            &&& post.key_index == self.key_index + 1
            &&& post.same_reports(self)
        } else if self.key_type is KeyA {
            &&& post.phase is LoadKey
            &&& post.sector == self.sector
            &&& post.key_type is KeyB
            &&& post.key_index == 0
            &&& post.same_reports(self)
        } else {
            &&& post.results@ == self.results@.push(self.current)
            &&& (self.sector + 1 < self.n_sectors ==> {
                &&& post.phase is LoadKey
                &&& post.sector == self.sector + 1
                &&& post.key_type is KeyA
                &&& post.key_index == 0
                &&& post.current.sector == self.sector + 1
                &&& post.current.reads@.len() == 0
                &&& post.pending@.len() == 0
            })
            &&& (self.sector + 1 >= self.n_sectors ==> post.phase is Done)
        }
    }

    /// The current sector's report gained exactly one key-type pass:
    /// the key type and winning candidate index of the trial that
    /// authenticated, and the recorded blocks closed by `last`.
    pub open spec fn closed_key_type(
        self,
        reads: Seq<KeyTypeReport>,
        last: BlockReport,
    ) -> bool {
        &&& reads.len() == self.current.reads@.len() + 1
        &&& (forall|i: int|
            0 <= i < self.current.reads@.len() ==> reads[i] == self.current.reads@[i])
        &&& reads.last().key_type == self.key_type
        &&& reads.last().key_index == self.key_index
        &&& reads.last().blocks@ == self.pending@.push(last)
    }

    /// Start a scan over `n_sectors` sectors with an ordered candidate
    /// key list.  Block addresses are 8 bits and a sector is 4 blocks,
    /// so at most 64 sectors are addressable.
    pub fn new(keys: Vec<Vec<u8>>, n_sectors: u8) -> (r: Scanner)
        requires
            n_sectors <= 64,
        ensures
            r.wf(),
            r.keys == keys,
            r.n_sectors == n_sectors,
            keys@.len() == 0 || n_sectors == 0 ==> r.phase is Done && r.results@.len()
                == n_sectors && (forall|i: int|
                0 <= i < n_sectors ==> (#[trigger] r.results@[i]).sector == i
                    && r.results@[i].reads@.len() == 0),
            keys@.len() > 0 && n_sectors > 0 ==> r.phase is LoadKey && r.sector == 0
                && r.key_type is KeyA && r.key_index == 0 && r.results@.len() == 0
                && r.current.sector == 0 && r.current.reads@.len() == 0,
    {
        if keys.len() == 0 || n_sectors == 0 {
            // With nothing to try, every sector is inaccessible.
            let mut results: Vec<SectorReport> = Vec::new();
            let mut s: u8 = 0;
            while s < n_sectors
                invariant
                    s <= n_sectors,
                    results@.len() == s,
                    forall|i: int|
                        0 <= i < s ==> (#[trigger] results@[i]).sector == i
                            && results@[i].reads@.len() == 0,
                decreases n_sectors - s,
            {
                results.push(SectorReport { sector: s, reads: Vec::new() });
                s = s + 1;
            }
            Scanner {
                keys,
                n_sectors,
                sector: 0,
                key_type: KeyType::KeyA,
                key_index: 0,
                phase: ScanPhase::Done,
                pending: Vec::new(),
                current: SectorReport { sector: 0, reads: Vec::new() },
                results,
            }
        } else {
            Scanner {
                keys,
                n_sectors,
                sector: 0,
                key_type: KeyType::KeyA,
                key_index: 0,
                phase: ScanPhase::LoadKey,
                pending: Vec::new(),
                current: SectorReport { sector: 0, reads: Vec::new() },
                results: Vec::new(),
            }
        }
    }

    /// What the driver should transmit next.  A read request never
    /// names block 0: the manufacturer block is skipped by policy.
    pub fn next_request(&self) -> (r: ScanRequest)
        requires
            self.wf(),
        ensures
            self.phase is LoadKey ==> (r matches ScanRequest::LoadKey { key } && key@
                == self.keys@[self.key_index as int]@),
            self.phase is Authenticate ==> (r matches ScanRequest::Authenticate { block, key_type }
                && block == self.sector * 4 && key_type == self.key_type),
            self.phase matches ScanPhase::ReadBlocks { offset } ==> (r
                matches ScanRequest::ReadBlock { block } && block == self.sector * 4 + offset),
            self.phase is Done ==> r is Finished,
            (r matches ScanRequest::ReadBlock { block } ==> block != 0),
    {
        match self.phase {
            ScanPhase::LoadKey => ScanRequest::LoadKey {
                key: clone_bytes(&self.keys[self.key_index]),
            },
            ScanPhase::Authenticate => ScanRequest::Authenticate {
                block: self.sector * 4,
                key_type: self.key_type,
            },
            ScanPhase::ReadBlocks { offset } => ScanRequest::ReadBlock {
                block: self.sector * 4 + offset,
            },
            ScanPhase::Done => ScanRequest::Finished,
        }
    }

    /// Feed back the outcome of the transmission `next_request` asked
    /// for.  A failed load or authenticate moves to the next trial in
    /// order; the first successful authenticate of a key type freezes
    /// its winning candidate and turns to reading the sector's blocks;
    /// a block read is recorded, success or failure, and the scan goes
    /// on.  Reports of finished sectors are never touched again.
    pub fn step(&mut self, outcome: Result<Vec<u8>, MifareError>)
        requires
            old(self).wf(),
            !old(self).spec_done(),
        ensures
            final(self).wf(),
            final(self).same_config(*old(self)),
            final(self).results@.len() >= old(self).results@.len(),
            forall|i: int|
                0 <= i < old(self).results@.len() ==> final(self).results@[i] == old(
                    self,
                ).results@[i],
            ({
                let pre = *old(self);
                let post = *final(self);
                &&& ((pre.phase is LoadKey || pre.phase is Authenticate) && outcome is Err
                    ==> pre.advanced_trial(post))
                &&& (pre.phase is LoadKey && outcome is Ok ==> {
                    &&& post.phase is Authenticate
                    &&& post.same_position(pre)
                    &&& post.same_reports(pre)
                })
                &&& (pre.phase is Authenticate && outcome is Ok ==> {
                    &&& post.same_position(pre)
                    &&& post.results == pre.results
                    &&& post.current == pre.current
                    &&& (pre.sector == 0 ==> {
                        &&& post.phase == (ScanPhase::ReadBlocks { offset: 1 })
                        &&& post.pending@ == seq![
                            BlockReport { block: 0, outcome: BlockOutcome::Skipped },
                        ]
                    })
                    &&& (pre.sector != 0 ==> {
                        &&& post.phase == (ScanPhase::ReadBlocks { offset: 0 })
                        &&& post.pending@.len() == 0
                    })
                })
                &&& (pre.phase matches ScanPhase::ReadBlocks { offset } ==> {
                    let rec = spec_block_record(pre.sector, offset, outcome);
                    &&& (offset < 3 ==> {
                        &&& post.phase == (ScanPhase::ReadBlocks { offset: (offset + 1) as u8 })
                        &&& post.same_position(pre)
                        &&& post.results == pre.results
                        &&& post.current == pre.current
                        &&& post.pending@ == pre.pending@.push(rec)
                    })
                    &&& (offset == 3 && pre.key_type is KeyA ==> {
                        &&& post.phase is LoadKey
                        &&& post.sector == pre.sector
                        &&& post.key_type is KeyB
                        &&& post.key_index == 0
                        &&& post.results == pre.results
                        &&& post.pending@.len() == 0
                        &&& post.current.sector == pre.current.sector
                        &&& pre.closed_key_type(post.current.reads@, rec)
                    })
                    &&& (offset == 3 && pre.key_type is KeyB ==> {
                        &&& post.results@.len() == pre.results@.len() + 1
                        &&& post.results@.last().sector == pre.current.sector
                        &&& pre.closed_key_type(post.results@.last().reads@, rec)
                        &&& (pre.sector + 1 < pre.n_sectors ==> {
                            &&& post.phase is LoadKey
                            &&& post.sector == pre.sector + 1
                            &&& post.key_type is KeyA
                            &&& post.key_index == 0
                            &&& post.pending@.len() == 0
                            &&& post.current.sector == pre.sector + 1
                            &&& post.current.reads@.len() == 0
                        })
                        &&& (pre.sector + 1 >= pre.n_sectors ==> post.phase is Done)
                    })
                })
            }),
    {
        match self.phase {
            ScanPhase::LoadKey => {
                if outcome.is_ok() {
                    self.phase = ScanPhase::Authenticate;
                } else {
                    self.advance_trial();
                }
            },
            ScanPhase::Authenticate => {
                if outcome.is_ok() {
                    if self.sector == 0 {
                        self.pending.push(
                            BlockReport { block: 0, outcome: BlockOutcome::Skipped },
                        );
                        self.phase = ScanPhase::ReadBlocks { offset: 1 };
                        proof {
                            assert(self.pending@ =~= seq![
                                BlockReport { block: 0, outcome: BlockOutcome::Skipped },
                            ]);
                        }
                    } else {
                        self.phase = ScanPhase::ReadBlocks { offset: 0 };
                    }
                } else {
                    self.advance_trial();
                }
            },
            ScanPhase::ReadBlocks { offset } => {
                let block = self.sector * 4 + offset;
                let rec = match outcome {
                    Ok(data) => BlockReport { block, outcome: BlockOutcome::Data(data) },
                    Err(e) => BlockReport { block, outcome: BlockOutcome::Failed(e) },
                };
                self.pending.push(rec);
                if offset < 3 {
                    self.phase = ScanPhase::ReadBlocks { offset: offset + 1 };
                } else {
                    // The key-type pass is complete: close it into the
                    // sector report.
                    let mut blocks: Vec<BlockReport> = Vec::new();
                    core::mem::swap(&mut blocks, &mut self.pending);
                    self.current.reads.push(
                        KeyTypeReport {
                            key_type: self.key_type,
                            key_index: self.key_index,
                            blocks,
                        },
                    );
                    if matches!(self.key_type, KeyType::KeyA) {
                        self.key_type = KeyType::KeyB;
                        self.key_index = 0;
                        self.phase = ScanPhase::LoadKey;
                    } else {
                        self.finish_sector();
                    }
                }
            },
            ScanPhase::Done => {
                proof {
                    assert(false);
                }
            },
        }
    }

    fn advance_trial(&mut self)
        requires
            old(self).wf(),
            old(self).phase is LoadKey || old(self).phase is Authenticate,
        ensures
            final(self).wf(),
            final(self).same_config(*old(self)),
            final(self).results@.len() >= old(self).results@.len(),
            forall|i: int|
                0 <= i < old(self).results@.len() ==> final(self).results@[i] == old(
                    self,
                ).results@[i],
            old(self).advanced_trial(*final(self)),
    {
        let n = self.keys.len();
        if self.key_index < n - 1 {
            self.key_index = self.key_index + 1;
            self.phase = ScanPhase::LoadKey;
        } else if matches!(self.key_type, KeyType::KeyA) {
            self.key_type = KeyType::KeyB;
            self.key_index = 0;
            self.phase = ScanPhase::LoadKey;
        } else {
            self.finish_sector();
        }
    }

    fn finish_sector(&mut self)
        requires
            old(self).wf(),
            !(old(self).phase is Done),
        ensures
            final(self).wf(),
            final(self).same_config(*old(self)),
            final(self).results@ == old(self).results@.push(old(self).current),
            ({
                let pre = *old(self);
                let post = *final(self);
                &&& (pre.sector + 1 < pre.n_sectors ==> {
                    &&& post.phase is LoadKey
                    &&& post.sector == pre.sector + 1
                    &&& post.key_type is KeyA
                    &&& post.key_index == 0
                    &&& post.current.sector == pre.sector + 1
                    &&& post.current.reads@.len() == 0
                    &&& post.pending@.len() == 0
                })
                &&& (pre.sector + 1 >= pre.n_sectors ==> post.phase is Done)
            }),
    {
        let mut finished = SectorReport { sector: 0, reads: Vec::new() };
        core::mem::swap(&mut finished, &mut self.current);
        self.results.push(finished);
        if self.sector + 1 < self.n_sectors {
            self.sector = self.sector + 1;
            self.current = SectorReport { sector: self.sector, reads: Vec::new() };
            self.key_type = KeyType::KeyA;
            self.key_index = 0;
            self.pending = Vec::new();
            self.phase = ScanPhase::LoadKey;
        } else {
            self.phase = ScanPhase::Done;
        }
    }
}

fn clone_bytes(v: &Vec<u8>) -> (r: Vec<u8>)
    ensures
        r@ == v@,
{
    let mut r: Vec<u8> = Vec::new();
    let mut i: usize = 0;
    while i < v.len()
        invariant
            i <= v@.len(),
            r@ == v@.take(i as int),
        decreases v@.len() - i,
    {
        r.push(v[i]);
        proof {
            assert(r@ =~= v@.take(i + 1int));
        }
        i = i + 1;
    }
    proof {
        assert(v@.take(v@.len() as int) =~= v@);
    }
    r
}

fn key6(b0: u8, b1: u8, b2: u8, b3: u8, b4: u8, b5: u8) -> (r: Vec<u8>)
    ensures
        r@ == seq![b0, b1, b2, b3, b4, b5],
{
    let mut r: Vec<u8> = Vec::new();
    r.push(b0);
    r.push(b1);
    r.push(b2);
    r.push(b3);
    r.push(b4);
    r.push(b5);
    proof {
        assert(r@ =~= seq![b0, b1, b2, b3, b4, b5]);
    }
    r
}

/// The fixed candidate list, in trial priority order: the all-FF
/// factory default, a common alternative, a second vendor-common key,
/// and the all-zero key.
pub fn default_keys() -> (r: Vec<Vec<u8>>)
    ensures
        r@.len() == 4,
        r@[0]@ == seq![0xffu8, 0xff, 0xff, 0xff, 0xff, 0xff],
        r@[1]@ == seq![0xa0u8, 0xa1, 0xa2, 0xa3, 0xa4, 0xa5],
        r@[2]@ == seq![0xd3u8, 0xf7, 0xd3, 0xf7, 0xd3, 0xf7],
        r@[3]@ == seq![0x00u8, 0x00, 0x00, 0x00, 0x00, 0x00],
{
    let mut r: Vec<Vec<u8>> = Vec::new();
    r.push(key6(0xff, 0xff, 0xff, 0xff, 0xff, 0xff));
    r.push(key6(0xa0, 0xa1, 0xa2, 0xa3, 0xa4, 0xa5));
    r.push(key6(0xd3, 0xf7, 0xd3, 0xf7, 0xd3, 0xf7));
    r.push(key6(0x00, 0x00, 0x00, 0x00, 0x00, 0x00));
    r
}

} // verus!
