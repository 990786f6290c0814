//! What a session remembers of its input and output.

use bytes::Bytes;
use std::collections::VecDeque;
use vstd::prelude::*;
use vstd::seq_lib::lemma_flatten_concat;

use crate::chunk::{chunk_bytes, share_chunk};

verus! {

/// How many chunks a session remembers.
pub const HISTORY_LIMIT: usize = 5000;

/// The last `count` items of a sequence; all of them, where there are no more.
pub open spec fn latest<T>(items: Seq<T>, count: nat) -> Seq<T> {
    if items.len() <= count {
        items
    } else {
        items.skip(items.len() - count)
    }
}

/// What is remembered once `chunk` has come in after `remembered`.
pub open spec fn remember(remembered: Seq<Seq<u8>>, chunk: Seq<u8>) -> Seq<Seq<u8>> {
    latest(remembered.push(chunk), HISTORY_LIMIT as nat)
}

/// What is remembered after `remembered` once a chunk has come in, or none.
pub open spec fn remember_piece(remembered: Seq<Seq<u8>>, piece: Option<Seq<u8>>) -> Seq<Seq<u8>> {
    match piece {
        Some(chunk) => remember(remembered, chunk),
        None => remembered,
    }
}

/// What is remembered of a log of chunks that came in one after the other.
pub open spec fn remember_all(log: Seq<Seq<u8>>) -> Seq<Seq<u8>>
    decreases log.len(),
{
    if log.len() == 0 {
        seq![]
    } else {
        remember(remember_all(log.drop_last()), log.last())
    }
}

/// The chunks that went through a session most recently, the oldest first.
pub struct History {
    chunks: VecDeque<Bytes>,
}

impl View for History {
    type V = Seq<Seq<u8>>;

    closed spec fn view(&self) -> Seq<Seq<u8>> {
        self.chunks@.map_values(|chunk: Bytes| chunk_bytes(chunk))
    }
}

impl History {
    #[verifier::type_invariant]
    spec fn within_limit(self) -> bool {
        self.chunks@.len() <= HISTORY_LIMIT
    }

    /// The history of a session through which nothing has gone yet.
    pub fn new() -> (res: History)
        ensures
            res@ == Seq::<Seq<u8>>::empty(),
    {
        let res = History { chunks: VecDeque::new() };
        assert(res@ =~= Seq::<Seq<u8>>::empty());
        res
    }

    /// Adds a chunk and forgets the oldest one where the limit is exceeded.
    pub fn push(&mut self, chunk: Bytes)
        ensures
            final(self)@ == remember(old(self)@, chunk_bytes(chunk)),
            final(self)@.len() <= HISTORY_LIMIT,
            final(self)@ == (if old(self)@.len() < 5000 {
                old(self)@.push(chunk_bytes(chunk))
            } else {
                old(self)@.drop_first().push(chunk_bytes(chunk))
            }),
    {
        proof {
            use_type_invariant(&*self);
        }
        let mut chunks: VecDeque<Bytes> = VecDeque::new();
        std::mem::swap(&mut chunks, &mut self.chunks);
        chunks.push_back(chunk);
        if chunks.len() > HISTORY_LIMIT {
            chunks.pop_front();
        }
        self.chunks = chunks;
        assert(self@ =~= remember(old(self)@, chunk_bytes(chunk)));
    }

    /// The remembered chunks, the oldest first.
    pub fn snapshot(&self) -> (res: Vec<Bytes>)
        ensures
            res@.map_values(|chunk: Bytes| chunk_bytes(chunk)) == self@,
            res@.len() <= HISTORY_LIMIT,
            res@.len() == self@.len(),
            forall|i: int| 0 <= i < self@.len() ==> chunk_bytes(#[trigger] res@[i]) == self@[i],
    {
        proof {
            use_type_invariant(self);
        }
        let mut res: Vec<Bytes> = Vec::new();
        let len = self.chunks.len();
        let mut i: usize = 0;
        while i < len
            invariant
                i <= len,
                len == self.chunks@.len(),
                res@.len() == i,
                forall|k: int| 0 <= k < i ==> chunk_bytes(#[trigger] res@[k]) == self@[k],
            decreases len - i,
        {
            res.push(share_chunk(&self.chunks[i]));
            i = i + 1;
        }
        assert(res@.map_values(|chunk: Bytes| chunk_bytes(chunk)) =~= self@);
        res
    }
}

/// A session remembers the most recent chunks that went through it, in the order in which they
/// came, and no others.
pub proof fn history_holds_the_latest_chunks(log: Seq<Seq<u8>>)
    ensures
        remember_all(log) == latest(log, HISTORY_LIMIT as nat),
    decreases log.len(),
{
    if log.len() > 0 {
        history_holds_the_latest_chunks(log.drop_last());
        assert(log.drop_last().push(log.last()) =~= log);
        assert(remember_all(log) =~= latest(log, HISTORY_LIMIT as nat));
    }
}

/// Whatever went through a session, its history grows by what comes in next, and what it replays is
/// the end of the whole stream of bytes: all of it, up to the limit, and beyond that what is left
/// without the oldest chunks.
pub proof fn a_replay_is_the_end_of_the_stream(log: Seq<Seq<u8>>, chunk: Seq<u8>)
    ensures
        remember_all(log.push(chunk)) == remember(remember_all(log), chunk),
        log.len() <= HISTORY_LIMIT ==> remember_all(log).flatten() == log.flatten(),
        log.len() > HISTORY_LIMIT ==> log.flatten() == log.take(
            log.len() - HISTORY_LIMIT,
        ).flatten() + remember_all(log).flatten(),
{
    assert(log.push(chunk).drop_last() =~= log);
    history_holds_the_latest_chunks(log);
    if log.len() > HISTORY_LIMIT {
        let cut = log.len() - HISTORY_LIMIT;
        assert(log.take(cut) + log.skip(cut) =~= log);
        lemma_flatten_concat(log.take(cut), log.skip(cut));
    }
}

/// Whatever a session remembers, the chunk that comes in is remembered whole, as the last. Nothing
/// is forgotten for it until five thousand chunks are remembered; then the oldest is, and no other.
pub proof fn a_chunk_displaces_only_the_oldest(remembered: Seq<Seq<u8>>, chunk: Seq<u8>)
    requires
        remembered.len() <= 5000,
    ensures
        remember(remembered, chunk).len() > 0,
        remember(remembered, chunk).last() == chunk,
        remembered.len() < 5000 ==> remember(remembered, chunk).drop_last() == remembered,
        remembered.len() == 5000 ==> remember(remembered, chunk).drop_last()
            == remembered.drop_first(),
        remember_piece(remembered, Some(chunk)).last() == chunk,
        remember_piece(remembered, Some(chunk)).drop_last() == remember(
            remembered,
            chunk,
        ).drop_last(),
        remember_piece(remembered, None) == remembered,
{
    assert(remembered.push(chunk).drop_last() =~= remembered);
    if remembered.len() == 5000 {
        assert(remember(remembered, chunk).drop_last() =~= remembered.drop_first());
    }
}

/// Of all that came in, a session remembers everything up to five thousand chunks, and beyond that
/// the last five thousand, each in its place.
pub proof fn a_session_remembers_five_thousand_chunks(log: Seq<Seq<u8>>)
    ensures
        log.len() <= 5000 ==> remember_all(log) == log,
        log.len() > 5000 ==> remember_all(log).len() == 5000,
        log.len() > 5000 ==> forall|i: int|
            0 <= i < 5000 ==> #[trigger] remember_all(log)[i] == log[log.len() - 5000 + i],
{
    history_holds_the_latest_chunks(log);
}

} // verus!
