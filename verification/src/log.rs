//! Positions in the replicated log.
use crate::text::hex_text;
use vstd::prelude::*;

verus! {

/// A log digest of four big-endian words, most significant first.
#[derive(Clone, Copy, Debug, PartialEq, Eq, Structural)]
pub struct LogHash {
    pub word0: u64,
    pub word1: u64,
    pub word2: u64,
    pub word3: u64,
}

impl LogHash {
    /// The digest whose bits are all zero.
    #[verifier::allow_in_spec]
    pub fn zero() -> (hash: LogHash)
        returns
            (LogHash { word0: 0, word1: 0, word2: 0, word3: 0 }),
    {
        LogHash { word0: 0, word1: 0, word2: 0, word3: 0 }
    }

    /// The digest in lower-case hexadecimal.
    pub open spec fn spec_hex(self) -> Seq<char> {
        crate::text::hex(self.word0 as nat, 16) + crate::text::hex(self.word1 as nat, 16)
            + crate::text::hex(self.word2 as nat, 16) + crate::text::hex(
            self.word3 as nat,
            16,
        )
    }

    /// Writes the digest in lower-case hexadecimal.
    pub fn to_hex(&self) -> (text: String)
        ensures
            text@ == self.spec_hex(),
    {
        let mut text = hex_text(self.word0, 16);
        text.append(hex_text(self.word1, 16).as_str());
        text.append(hex_text(self.word2, 16).as_str());
        text.append(hex_text(self.word3, 16).as_str());
        text
    }
}

/// One position of the log: an index and the hash of the entry there.
#[derive(Clone, Copy, Debug, PartialEq, Eq, Structural)]
pub struct LogAnchor {
    pub index: u64,
    pub hash: LogHash,
}

impl LogAnchor {
    #[verifier::allow_in_spec]
    pub fn new(index: u64, hash: LogHash) -> (anchor: LogAnchor)
        returns
            (LogAnchor { index, hash }),
    {
        LogAnchor { index, hash }
    }
}

/// A digest is written in sixty-four hexadecimal digits, each word in sixteen,
/// and no two digests are written the same.
pub proof fn law_a_digest_is_known_by_its_text(
    left: LogHash,
    right: LogHash,
    left_text: String,
    right_text: String,
)
    requires
        call_ensures(LogHash::to_hex, (&left,), left_text),
        call_ensures(LogHash::to_hex, (&right,), right_text),
    ensures
        left_text@.len() == 64,
        crate::text::hex_reading(left_text@.subrange(0, 16)) == left.word0,
        crate::text::hex_reading(left_text@.subrange(16, 32)) == left.word1,
        crate::text::hex_reading(left_text@.subrange(32, 48)) == left.word2,
        crate::text::hex_reading(left_text@.subrange(48, 64)) == left.word3,
        left_text@ == right_text@ <==> left == right,
{
    lemma_words_read_back(left);
    lemma_words_read_back(right);
}

/// Each word of a digest's text reads as that word.
proof fn lemma_words_read_back(hash: LogHash)
    ensures
        hash.spec_hex().len() == 64,
        crate::text::hex_reading(hash.spec_hex().subrange(0, 16)) == hash.word0,
        crate::text::hex_reading(hash.spec_hex().subrange(16, 32)) == hash.word1,
        crate::text::hex_reading(hash.spec_hex().subrange(32, 48)) == hash.word2,
        crate::text::hex_reading(hash.spec_hex().subrange(48, 64)) == hash.word3,
{
    assert(crate::text::hex_range(16) == 0x1_0000_0000_0000_0000) by {
        reveal_with_fuel(crate::text::hex_range, 17);
    }
    crate::text::law_a_hexadecimal_reads_back(hash.word0 as nat, 16);
    crate::text::law_a_hexadecimal_reads_back(hash.word1 as nat, 16);
    crate::text::law_a_hexadecimal_reads_back(hash.word2 as nat, 16);
    crate::text::law_a_hexadecimal_reads_back(hash.word3 as nat, 16);
    let text = hash.spec_hex();
    assert(text.subrange(0, 16) =~= crate::text::hex(hash.word0 as nat, 16));
    assert(text.subrange(16, 32) =~= crate::text::hex(hash.word1 as nat, 16));
    assert(text.subrange(32, 48) =~= crate::text::hex(hash.word2 as nat, 16));
    assert(text.subrange(48, 64) =~= crate::text::hex(hash.word3 as nat, 16));
}

} // verus!
