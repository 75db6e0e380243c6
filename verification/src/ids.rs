//! Identifiers of conversations and messages.

use crate::text::{
    decimal, is_digit, lemma_decimal_digits, lemma_decimal_injective, push_decimal,
    push_signed_decimal, signed_decimal,
};
use vstd::prelude::*;
use vstd::string::*;

verus! {

/// An identifier: a prefix, the time in milliseconds and a sequence
/// number, joined by underscores.
pub open spec fn id_text(prefix: Seq<char>, ms: i64, seq: u64) -> Seq<char> {
    prefix + "_"@ + signed_decimal(ms as int) + "_"@ + decimal(seq as nat)
}

/// The identifier for a prefix, a time and a sequence number.
pub fn new_id(prefix: &str, ms: i64, seq: u64) -> (r: String)
    ensures
        r@ == id_text(prefix@, ms, seq),
{
    let mut s = String::from_str(prefix);
    s.append("_");
    push_signed_decimal(&mut s, ms);
    s.append("_");
    push_decimal(&mut s, seq);
    s
}

/// The sequence number that follows `seq`; after the largest comes zero.
pub open spec fn next_seq(seq: u64) -> u64 {
    if seq == u64::MAX {
        0
    } else {
        (seq + 1) as u64
    }
}

/// The source of sequence numbers of one process. Each identifier it makes
/// takes the next number.
pub struct IdSource {
    next: u64,
}

impl View for IdSource {
    type V = u64;

    /// The sequence number of the next identifier.
    closed spec fn view(&self) -> u64 {
        self.next
    }
}

impl IdSource {
    /// A source whose first identifier has the sequence number one.
    pub fn new() -> (r: Self)
        ensures
            r@ == 1,
    {
        IdSource { next: 1 }
    }

    /// A new identifier with the prefix, made at the time `now_ms`.
    pub fn make(&mut self, prefix: &str, now_ms: i64) -> (r: String)
        ensures
            r@ == id_text(prefix@, now_ms, old(self)@),
            final(self)@ == next_seq(old(self)@),
    {
        let seq = self.next;
        self.next = if seq == u64::MAX {
            0
        } else {
            seq + 1
        };
        new_id(prefix, now_ms, seq)
    }
}

/// No underscore stands in the numeral of a time.
proof fn lemma_time_has_no_underscore(ms: i64)
    ensures
        forall|i: int|
            0 <= i < signed_decimal(ms as int).len() ==> #[trigger] signed_decimal(ms as int)[i]
                != '_',
{
    if ms < 0 {
        lemma_decimal_digits((-ms) as nat);
    } else {
        lemma_decimal_digits(ms as nat);
    }
}

/// Identifiers with one prefix and different sequence numbers differ,
/// whatever their times: a source never makes an identifier twice before
/// its numbers start over.
pub proof fn law_ids_differ(prefix: Seq<char>, ms1: i64, seq1: u64, ms2: i64, seq2: u64)
    requires
        seq1 != seq2,
    ensures
        id_text(prefix, ms1, seq1) != id_text(prefix, ms2, seq2),
{
    reveal_strlit("_");
    let a = signed_decimal(ms1 as int);
    let b = signed_decimal(ms2 as int);
    let x = decimal(seq1 as nat);
    let y = decimal(seq2 as nat);
    let head = prefix + "_"@;
    if id_text(prefix, ms1, seq1) == id_text(prefix, ms2, seq2) {
        let t1 = a + seq!['_'] + x;
        let t2 = b + seq!['_'] + y;
        assert(id_text(prefix, ms1, seq1) =~= head + t1);
        assert(id_text(prefix, ms2, seq2) =~= head + t2);
        assert(t1 =~= (head + t1).subrange(head.len() as int, (head + t1).len() as int));
        assert(t2 =~= (head + t2).subrange(head.len() as int, (head + t2).len() as int));
        lemma_time_has_no_underscore(ms1);
        lemma_time_has_no_underscore(ms2);
        if a.len() < b.len() {
            assert(t1[a.len() as int] == '_');
        } else if b.len() < a.len() {
            assert(t2[b.len() as int] == '_');
        }
        assert(x =~= t1.subrange(a.len() as int + 1, t1.len() as int));
        assert(y =~= t2.subrange(b.len() as int + 1, t2.len() as int));
        lemma_decimal_injective(seq1 as nat, seq2 as nat);
    }
}

/// The identifier of a tool message is never that of an answer or of a
/// user's message, whatever their times and sequence numbers: the two
/// kinds begin with different letters.
pub proof fn law_tool_and_message_ids_differ(ms1: i64, seq1: u64, ms2: i64, seq2: u64)
    ensures
        id_text("t"@, ms1, seq1) != id_text("m"@, ms2, seq2),
{
    reveal_strlit("t");
    reveal_strlit("m");
    assert(id_text("t"@, ms1, seq1)[0] == 't');
}

} // verus!
