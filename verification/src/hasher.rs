//! Content hashing: a streaming 64-bit FNV-1a digest over file bytes,
//! rendered as an algorithm-prefixed hex string. The hasher consumes the
//! file in chunks, so memory use does not depend on file size.

use vstd::prelude::*;

verus! {

/// FNV-1a 64-bit offset basis.
pub const FNV_OFFSET: u64 = 0xcbf29ce484222325;

/// FNV-1a 64-bit prime.
pub const FNV_PRIME: u64 = 0x100000001b3;

/// One FNV-1a step: fold one byte into the running state.
pub open spec fn fnv_step(h: u64, b: u8) -> u64 {
    (h ^ (b as u64)).wrapping_mul(FNV_PRIME)
}

/// The FNV-1a state after folding all of `bytes`, in order.
pub open spec fn fnv_fold(bytes: Seq<u8>) -> u64
    decreases bytes.len(),
{
    if bytes.len() == 0 {
        FNV_OFFSET
    } else {
        fnv_step(fnv_fold(bytes.drop_last()), bytes.last())
    }
}

/// The lower-case hex character for one value below sixteen.
pub open spec fn hex_digit(d: nat) -> char {
    if d == 0 {
        '0'
    } else if d == 1 {
        '1'
    } else if d == 2 {
        '2'
    } else if d == 3 {
        '3'
    } else if d == 4 {
        '4'
    } else if d == 5 {
        '5'
    } else if d == 6 {
        '6'
    } else if d == 7 {
        '7'
    } else if d == 8 {
        '8'
    } else if d == 9 {
        '9'
    } else if d == 10 {
        'a'
    } else if d == 11 {
        'b'
    } else if d == 12 {
        'c'
    } else if d == 13 {
        'd'
    } else if d == 14 {
        'e'
    } else {
        'f'
    }
}

/// The `i`-th hex digit of `v`, counting from the most significant.
pub open spec fn nibble(v: u64, i: int) -> u64 {
    (v >> (((15 - i) * 4) as u64)) & 0xf
}

/// The 16-character lower-case hex rendering of a 64-bit value.
pub open spec fn hex64(v: u64) -> Seq<char> {
    Seq::new(16, |i: int| hex_digit(nibble(v, i) as nat))
}

/// The digest string for a file with the given content bytes:
/// the algorithm name, a colon, and the hex-encoded FNV-1a state.
pub open spec fn digest_of(bytes: Seq<u8>) -> Seq<char> {
    "fnv1a64:"@ + hex64(fnv_fold(bytes))
}

/// Hashing is a function of the content alone: the same bytes always
/// yield the same digest string, however often or wherever they are
/// hashed.
pub proof fn lemma_digest_deterministic(a: Seq<u8>, b: Seq<u8>)
    requires
        a == b,
    ensures
        digest_of(a) == digest_of(b),
{
}

/// The one-character string for one hex digit.
fn hex_digit_str(d: u64) -> (c: &'static str)
    requires
        d < 16,
    ensures
        c@ =~= seq![hex_digit(d as nat)],
{
    if d == 0 {
        proof {
            reveal_strlit("0");
        }
        "0"
    } else if d == 1 {
        proof {
            reveal_strlit("1");
        }
        "1"
    } else if d == 2 {
        proof {
            reveal_strlit("2");
        }
        "2"
    } else if d == 3 {
        proof {
            reveal_strlit("3");
        }
        "3"
    } else if d == 4 {
        proof {
            reveal_strlit("4");
        }
        "4"
    } else if d == 5 {
        proof {
            reveal_strlit("5");
        }
        "5"
    } else if d == 6 {
        proof {
            reveal_strlit("6");
        }
        "6"
    } else if d == 7 {
        proof {
            reveal_strlit("7");
        }
        "7"
    } else if d == 8 {
        proof {
            reveal_strlit("8");
        }
        "8"
    } else if d == 9 {
        proof {
            reveal_strlit("9");
        }
        "9"
    } else if d == 10 {
        proof {
            reveal_strlit("a");
        }
        "a"
    } else if d == 11 {
        proof {
            reveal_strlit("b");
        }
        "b"
    } else if d == 12 {
        proof {
            reveal_strlit("c");
        }
        "c"
    } else if d == 13 {
        proof {
            reveal_strlit("d");
        }
        "d"
    } else if d == 14 {
        proof {
            reveal_strlit("e");
        }
        "e"
    } else {
        proof {
            reveal_strlit("f");
        }
        "f"
    }
}

/// Renders a 64-bit value as 16 lower-case hex characters.
pub fn hex_string_u64(v: u64) -> (s: String)
    ensures
        s@ == hex64(v),
{
    let mut s = String::new();
    let mut i: usize = 0;
    while i < 16
        invariant
            i <= 16,
            s@ == hex64(v).take(i as int),
        decreases 16 - i,
    {
        let sh: u64 = ((15 - i) as u64) * 4;
        let d: u64 = (v >> sh) & 0xf;
        proof {
            assert((v >> sh) & 0xf < 16) by (bit_vector);
            assert(sh == ((15 - i as int) * 4) as u64);
        }
        let c = hex_digit_str(d);
        s.append(c);
        proof {
            assert(hex64(v)[i as int] == hex_digit(nibble(v, i as int) as nat));
            assert(d == nibble(v, i as int));
            assert(hex64(v).take(i + 1) =~= hex64(v).take(i as int) + seq![hex64(v)[i as int]]);
        }
        i = i + 1;
    }
    proof {
        assert(hex64(v).take(16) =~= hex64(v));
    }
    s
}

/// Streaming hasher: folds chunks of a file's bytes into the FNV-1a
/// state; the ghost record of the consumed bytes ties the state to the
/// content actually read.
pub struct StreamingHasher {
    state: u64,
    consumed: Ghost<Seq<u8>>,
}

impl StreamingHasher {
    /// The bytes this hasher has consumed so far.
    pub closed spec fn bytes(&self) -> Seq<u8> {
        self.consumed@
    }

    /// The state is exactly the fold of the consumed bytes.
    pub closed spec fn wf(&self) -> bool {
        self.state == fnv_fold(self.consumed@)
    }

    /// A fresh hasher that has consumed nothing.
    pub fn new() -> (h: StreamingHasher)
        ensures
            h.wf(),
            h.bytes() == Seq::<u8>::empty(),
    {
        StreamingHasher { state: FNV_OFFSET, consumed: Ghost(Seq::empty()) }
    }

    /// Folds one chunk of the file into the digest state. Chunks may be
    /// of any size; only their concatenation matters.
    pub fn update(&mut self, chunk: &[u8])
        requires
            old(self).wf(),
        ensures
            final(self).wf(),
            final(self).bytes() == old(self).bytes() + chunk@,
    {
        let ghost base: Seq<u8> = self.consumed@;
        let mut h: u64 = self.state;
        let mut j: usize = 0;
        proof {
            assert(base + chunk@.take(0) =~= base);
        }
        while j < chunk.len()
            invariant
                j <= chunk.len(),
                h == fnv_fold(base + chunk@.take(j as int)),
            decreases chunk.len() - j,
        {
            proof {
                assert(base + chunk@.take(j + 1) =~= (base + chunk@.take(j as int)).push(
                    chunk@[j as int],
                ));
                assert((base + chunk@.take(j as int)).push(chunk@[j as int]).drop_last() =~= base
                    + chunk@.take(j as int));
            }
            h = (h ^ (chunk[j] as u64)).wrapping_mul(FNV_PRIME);
            j = j + 1;
        }
        proof {
            assert(base + chunk@.take(chunk.len() as int) =~= base + chunk@);
        }
        self.state = h;
        self.consumed = Ghost(base + chunk@);
    }

    /// The digest string for everything consumed so far.
    pub fn finalize(&self) -> (d: String)
        requires
            self.wf(),
        ensures
            d@ == digest_of(self.bytes()),
    {
        let mut s = String::from_str("fnv1a64:");
        let hex = hex_string_u64(self.state);
        s.append(hex.as_str());
        s
    }
}

/// Digest of a whole in-memory byte slice in one call.
pub fn digest_bytes(data: &[u8]) -> (d: String)
    ensures
        d@ == digest_of(data@),
{
    let mut h = StreamingHasher::new();
    h.update(data);
    proof {
        assert(Seq::<u8>::empty() + data@ =~= data@);
    }
    h.finalize()
}

} // verus!
