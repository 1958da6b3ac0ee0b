//! The per-repository lock record, its byte layout in the store, and the
//! protocol by which one mutating operation at a time takes the lock.
use vstd::prelude::*;
use vstd::utf8::valid_utf8;

verus! {

/// The low `k` bytes of `n`, least significant first.
pub open spec fn le_bytes(n: nat, k: nat) -> Seq<u8>
    decreases k,
{
    if k == 0 {
        seq![]
    } else {
        seq![(n % 256) as u8] + le_bytes(n / 256, (k - 1) as nat)
    }
}

/// `le_bytes` has the length asked for.
pub proof fn lemma_le_bytes_len(n: nat, k: nat)
    ensures
        le_bytes(n, k).len() == k,
    decreases k,
{
    if k > 0 {
        lemma_le_bytes_len(n / 256, (k - 1) as nat);
    }
}

/// The view of a lock record: whether it is held, and the bytes of the
/// timestamp at which it was taken.
pub type LockView = (bool, Option<Seq<u8>>);

/// The stored bytes of a lock record (the timestamp's bytes are UTF-8): one byte for the flag, then a tag byte,
/// and for a timestamp its length as eight little-endian bytes and its bytes
/// (the layout bincode gives a `(bool, Option<String>)`).
pub open spec fn encode_lock(v: LockView) -> Seq<u8> {
    seq![if v.0 { 1u8 } else { 0u8 }] + match v.1 {
        None => seq![0u8],
        Some(t) => seq![1u8] + le_bytes(t.len(), 8) + t,
    }
}

/// The lock record that the bytes `b` hold, if any.
pub open spec fn decode_lock(b: Seq<u8>) -> Option<LockView> {
    if b.len() < 2 || b[0] > 1 || b[1] > 1 {
        None
    } else if b[1] == 0 {
        if b.len() == 2 {
            Some((b[0] == 1, None))
        } else {
            None
        }
    } else if b.len() >= 10 && b.subrange(2, 10) == le_bytes((b.len() - 10) as nat, 8) && valid_utf8(
        b.subrange(10, b.len() as int),
    ) {
        Some((b[0] == 1, Some(b.subrange(10, b.len() as int))))
    } else {
        None
    }
}

/// Decoding the bytes of a record gives the record back.
pub proof fn lemma_lock_round_trip(v: LockView)
    requires
        v.1 is Some ==> v.1->Some_0.len() < 0x1_0000_0000_0000_0000,
        v.1 is Some ==> valid_utf8(v.1->Some_0),
    ensures
        decode_lock(encode_lock(v)) == Some(v),
{
    let b = encode_lock(v);
    match v.1 {
        None => {
            assert(b.len() == 2);
        },
        Some(t) => {
            lemma_le_bytes_len(t.len(), 8);
            assert(b.subrange(2, 10) =~= le_bytes(t.len(), 8));
            assert(b.subrange(10, b.len() as int) =~= t);
        },
    }
}

/// Relies on `std::str::from_utf8`: whether `b` is UTF-8.
#[verifier::external_body]
fn is_utf8(b: &[u8]) -> (r: bool)
    ensures
        r == valid_utf8(b@),
{
    std::str::from_utf8(b).is_ok()
}

/// A repository's lock record.
#[derive(Debug, Clone)]
pub struct LockRecord {
    /// Whether an operation holds the lock.
    pub is_locked: bool,
    /// The text of the time at which the lock was taken, while it is held.
    pub locked_at: Option<Vec<u8>>,
}

impl View for LockRecord {
    type V = LockView;

    open spec fn view(&self) -> LockView {
        (
            self.is_locked,
            match self.locked_at {
                Some(t) => Some(t@),
                None => None,
            },
        )
    }
}

/// Appends the low eight bytes of `n`, least significant first.
fn push_u64_le(out: &mut Vec<u8>, n: u64)
    ensures
        final(out)@ == old(out)@ + le_bytes(n as nat, 8),
{
    let mut m: u64 = n;
    let mut i: usize = 0;
    while i < 8
        invariant
            i <= 8,
            out@ + le_bytes(m as nat, (8 - i) as nat) == old(out)@ + le_bytes(n as nat, 8),
        decreases 8 - i,
    {
        let ghost before = out@;
        assert(le_bytes(m as nat, (8 - i) as nat) == seq![(m % 256) as u8] + le_bytes(
            (m / 256) as nat,
            (8 - i - 1) as nat,
        ));
        out.push((m % 256) as u8);
        assert(before + le_bytes(m as nat, (8 - i) as nat) =~= out@ + le_bytes(
            (m / 256) as nat,
            (8 - i - 1) as nat,
        ));
        m = m / 256;
        i = i + 1;
    }
    assert(le_bytes(m as nat, 0) =~= seq![]);
    assert(out@ =~= out@ + le_bytes(m as nat, 0));
}

/// Appends the bytes of `t`.
fn push_all(out: &mut Vec<u8>, t: &[u8])
    ensures
        final(out)@ == old(out)@ + t@,
{
    let mut j: usize = 0;
    while j < t.len()
        invariant
            j <= t@.len(),
            out@ == old(out)@ + t@.subrange(0, j as int),
        decreases t@.len() - j,
    {
        out.push(t[j]);
        j = j + 1;
        assert(t@.subrange(0, j as int) =~= t@.subrange(0, j - 1) + seq![t@[j - 1]]);
    }
    assert(t@.subrange(0, t@.len() as int) =~= t@);
}

impl LockRecord {
    /// A free lock record.
    pub fn unlocked() -> (r: LockRecord)
        ensures
            r@ == (false, None::<Seq<u8>>),
    {
        LockRecord { is_locked: false, locked_at: None }
    }

    /// A held lock record, taken at the time whose text is `at`.
    pub fn locked(at: Vec<u8>) -> (r: LockRecord)
        ensures
            r@ == (true, Some(at@)),
    {
        LockRecord { is_locked: true, locked_at: Some(at) }
    }

    /// The stored bytes of the record.
    pub fn encode(&self) -> (r: Vec<u8>)
        ensures
            r@ == encode_lock(self@),
    {
        let mut out: Vec<u8> = Vec::new();
        out.push(if self.is_locked { 1u8 } else { 0u8 });
        match &self.locked_at {
            None => {
                out.push(0u8);
            },
            Some(t) => {
                out.push(1u8);
                push_u64_le(&mut out, t.len() as u64);
                push_all(&mut out, t.as_slice());
            },
        }
        assert(out@ =~= encode_lock(self@));
        out
    }

    /// The record that the stored bytes `b` hold; `None` where they hold none.
    pub fn decode(b: &[u8]) -> (r: Option<LockRecord>)
        ensures
            match r {
                Some(rec) => decode_lock(b@) == Some(rec@),
                None => decode_lock(b@) is None,
            },
    {
        let n = b.len();
        if n < 2 || b[0] > 1 || b[1] > 1 {
            return None;
        }
        let is_locked = b[0] == 1;
        if b[1] == 0 {
            if n == 2 {
                return Some(LockRecord { is_locked, locked_at: None });
            }
            return None;
        }
        if n < 10 {
            return None;
        }
        let mut expect: Vec<u8> = Vec::new();
        push_u64_le(&mut expect, (n - 10) as u64);
        proof {
            lemma_le_bytes_len((n - 10) as nat, 8);
        }
        let mut k: usize = 0;
        while k < 8
            invariant
                n == b@.len(),
                n >= 10,
                expect@ == le_bytes((n - 10) as nat, 8),
                expect@.len() == 8,
                k <= 8,
                forall|i: int| 0 <= i < k ==> b@[2 + i] == expect@[i],
            decreases 8 - k,
        {
            if b[2 + k] != expect[k] {
                assert(b@.subrange(2, 10)[k as int] != expect@[k as int]);
                return None;
            }
            k = k + 1;
        }
        assert(b@.subrange(2, 10) =~= expect@);
        let mut t: Vec<u8> = Vec::new();
        let mut j: usize = 10;
        while j < n
            invariant
                n == b@.len(),
                10 <= j <= n,
                t@ == b@.subrange(10, j as int),
            decreases n - j,
        {
            t.push(b[j]);
            j = j + 1;
            assert(b@.subrange(10, j as int) =~= b@.subrange(10, j - 1) + seq![b@[j - 1]]);
        }
        if !is_utf8(t.as_slice()) {
            return None;
        }
        Some(LockRecord { is_locked, locked_at: Some(t) })
    }
}

/// The stored bytes `cell` hold a lock record that is free.
pub open spec fn lock_free(cell: Option<Seq<u8>>) -> bool {
    match cell {
        Some(b) => match decode_lock(b) {
            Some(v) => !v.0,
            None => false,
        },
        None => false,
    }
}

/// Whether the stored bytes `cell` hold a free lock record.
pub fn is_free(cell: &Option<Vec<u8>>) -> (r: bool)
    ensures
        r == lock_free(
            match cell {
                Some(b) => Some(b@),
                None => None,
            },
        ),
{
    match cell {
        None => false,
        Some(b) => match LockRecord::decode(b.as_slice()) {
            Some(rec) => !rec.is_locked,
            None => false,
        },
    }
}

/// A compare-and-swap on a store cell: the new cell, and whether it swapped.
pub open spec fn cas(cell: Option<Seq<u8>>, expected: Option<Seq<u8>>, new: Option<Seq<u8>>) -> (
    Option<Seq<u8>>,
    bool,
) {
    if cell == expected {
        (new, true)
    } else {
        (cell, false)
    }
}

/// What a caller that read `seen` from the store does to take the lock at
/// the time `at`: the cell afterwards, and whether it holds the lock. It takes
/// the lock only where `seen` is free and the cell still holds `seen`.
pub open spec fn acquire(cell: Option<Seq<u8>>, seen: Option<Seq<u8>>, at: Seq<u8>) -> (
    Option<Seq<u8>>,
    bool,
) {
    if lock_free(seen) {
        cas(cell, seen, Some(encode_lock((true, Some(at)))))
    } else {
        (cell, false)
    }
}

/// What the holder that read `seen` and wrote `held` does on release: the
/// cell gets `seen` back where it still holds `held`.
pub open spec fn release(cell: Option<Seq<u8>>, seen: Option<Seq<u8>>, held: Option<Seq<u8>>) -> (
    Option<Seq<u8>>,
    bool,
) {
    cas(cell, held, seen)
}

/// Two callers that read the same free record race for the lock: the first
/// to swap takes it, the second is refused and leaves the cell as the first
/// left it; once the first releases, the record is free again and a third
/// caller takes the lock. `acquire_step`, `swap_step` and `settle_step` make
/// these decisions in `System::with_lock`, over `lock_free` and the bytes that
/// `LockRecord::locked` and `encode` give.
pub proof fn lemma_lock_excludes(cell: Option<Seq<u8>>, at1: Seq<u8>, at2: Seq<u8>, at3: Seq<u8>)
    requires
        lock_free(cell),
    ensures
        ({
            let (c1, ok1) = acquire(cell, cell, at1);
            let (c2, ok2) = acquire(c1, cell, at2);
            let (c3, ok3) = release(c2, cell, Some(encode_lock((true, Some(at1)))));
            let (c4, ok4) = acquire(c3, c3, at3);
            &&& ok1
            &&& !ok2
            &&& c2 == c1
            &&& ok3
            &&& c3 == cell
            &&& ok4
            &&& c4 == Some(encode_lock((true, Some(at3))))
        }),
{
    let held = encode_lock((true, Some(at1)));
    let b = cell->Some_0;
    assert(held[0] == 1u8);
    assert(b[0] == 0u8);
    assert(held != b);
}

} // verus!
