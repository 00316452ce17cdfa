//! Incident id generation.
//!
//! An id is derived from the creation timestamp *and* a monotonically
//! increasing sequence number, `INC-<compact timestamp>-<sequence>`: two
//! incidents created in the same timestamp tick still receive distinct ids,
//! because the decimal sequence suffix differs. [`lemma_incident_id_injective`]
//! proves that ids with distinct sequence numbers are distinct, whatever the
//! timestamps.

use vstd::prelude::*;
use vstd::arithmetic::div_mod::lemma_fundamental_div_mod;

verus! {

/// The character of a single decimal digit value.
pub open spec fn spec_digit_char(d: nat) -> char
    recommends
        d < 10,
{
    if d == 0 {
        '0'
    } else if d == 1 {
        '1'
    } else if d == 2 {
        '2'
    } else if d == 3 {
        '3'
    } else if d == 4 {
        '4'
    } else if d == 5 {
        '5'
    } else if d == 6 {
        '6'
    } else if d == 7 {
        '7'
    } else if d == 8 {
        '8'
    } else {
        '9'
    }
}

/// The value of a decimal digit character; 10 for any other character.
pub open spec fn spec_digit_value(c: char) -> nat {
    if c == '0' {
        0
    } else if c == '1' {
        1
    } else if c == '2' {
        2
    } else if c == '3' {
        3
    } else if c == '4' {
        4
    } else if c == '5' {
        5
    } else if c == '6' {
        6
    } else if c == '7' {
        7
    } else if c == '8' {
        8
    } else if c == '9' {
        9
    } else {
        10
    }
}

pub open spec fn spec_is_digit(c: char) -> bool {
    spec_digit_value(c) < 10
}

/// The decimal rendering of `n`, most significant digit first.
pub open spec fn spec_decimal(n: nat) -> Seq<char>
    decreases n,
{
    if n < 10 {
        seq![spec_digit_char(n)]
    } else {
        spec_decimal(n / 10).push(spec_digit_char(n % 10))
    }
}

/// Reading a digit character back gives the digit value.
proof fn lemma_digit_roundtrip(d: nat)
    requires
        d < 10,
    ensures
        spec_digit_value(spec_digit_char(d)) == d,
{
}

/// A decimal rendering is non-empty, and at least two characters from 10 up.
pub proof fn lemma_decimal_len(n: nat)
    ensures
        spec_decimal(n).len() >= 1,
        n >= 10 ==> spec_decimal(n).len() >= 2,
    decreases n,
{
    if n >= 10 {
        lemma_decimal_len(n / 10);
    }
}

/// Every character of a decimal rendering is a digit.
pub proof fn lemma_decimal_digits(n: nat)
    ensures
        forall|i: int| 0 <= i < spec_decimal(n).len() ==> spec_is_digit(#[trigger] spec_decimal(n)[i]),
    decreases n,
{
    if n < 10 {
        lemma_digit_roundtrip(n);
    } else {
        lemma_decimal_digits(n / 10);
        lemma_digit_roundtrip(n % 10);
        let d = spec_decimal(n);
        let base = spec_decimal(n / 10);
        assert forall|i: int| 0 <= i < d.len() implies spec_is_digit(#[trigger] d[i]) by {
            if i < base.len() {
                assert(d[i] == base[i]);
            } else {
                assert(d[i] == spec_digit_char(n % 10));
            }
        }
    }
}

/// Decimal rendering is injective.
pub proof fn lemma_decimal_injective(a: nat, b: nat)
    requires
        spec_decimal(a) == spec_decimal(b),
    ensures
        a == b,
    decreases a,
{
    lemma_decimal_len(a);
    lemma_decimal_len(b);
    if a < 10 && b < 10 {
        assert(spec_decimal(a)[0] == spec_digit_char(a));
        assert(spec_decimal(b)[0] == spec_digit_char(b));
        lemma_digit_roundtrip(a);
        lemma_digit_roundtrip(b);
    } else if a < 10 {
        assert(spec_decimal(a).len() == 1);
        assert(false);
    } else if b < 10 {
        assert(spec_decimal(b).len() == 1);
        assert(false);
    } else {
        let da = spec_decimal(a);
        let db = spec_decimal(b);
        assert(da.last() == spec_digit_char(a % 10));
        assert(db.last() == spec_digit_char(b % 10));
        lemma_digit_roundtrip(a % 10);
        lemma_digit_roundtrip(b % 10);
        assert(a % 10 == b % 10);
        assert(da.drop_last() =~= spec_decimal(a / 10));
        assert(db.drop_last() =~= spec_decimal(b / 10));
        lemma_decimal_injective(a / 10, b / 10);
        lemma_fundamental_div_mod(a as int, 10);
        lemma_fundamental_div_mod(b as int, 10);
    }
}

/// Whether a timestamp character survives compaction: the punctuation of an
/// ISO-8601 timestamp (`-`, `:`, `T`, `Z`) is removed.
pub open spec fn spec_keeps(c: char) -> bool {
    c != '-' && c != ':' && c != 'T' && c != 'Z'
}

/// The compaction of a timestamp: its characters with punctuation removed,
/// in order.
pub open spec fn spec_compact(s: Seq<char>) -> Seq<char>
    decreases s.len(),
{
    if s.len() == 0 {
        Seq::empty()
    } else {
        spec_compact(s.drop_last()) + (if spec_keeps(s.last()) {
            seq![s.last()]
        } else {
            Seq::<char>::empty()
        })
    }
}

/// The id of the incident with sequence number `seq_no` created at
/// `created_at`.
pub open spec fn spec_incident_id(created_at: Seq<char>, seq_no: nat) -> Seq<char> {
    "INC-"@ + spec_compact(created_at) + "-"@ + spec_decimal(seq_no)
}

/// Ids embed the sequence number injectively: equal ids mean equal sequence
/// numbers, whatever the two timestamps were. Together with the store
/// allocating a fresh sequence number per creation, ids are pairwise
/// distinct.
pub proof fn lemma_incident_id_injective(ts1: Seq<char>, n1: nat, ts2: Seq<char>, n2: nat)
    requires
        spec_incident_id(ts1, n1) == spec_incident_id(ts2, n2),
    ensures
        n1 == n2,
{
    reveal_strlit("-");
    reveal_strlit("INC-");
    let id = spec_incident_id(ts1, n1);
    let len = id.len() as int;
    let d1 = spec_decimal(n1);
    let d2 = spec_decimal(n2);
    let head1 = "INC-"@ + spec_compact(ts1) + "-"@;
    let head2 = "INC-"@ + spec_compact(ts2) + "-"@;
    lemma_decimal_len(n1);
    lemma_decimal_len(n2);
    lemma_decimal_digits(n1);
    lemma_decimal_digits(n2);
    assert(id =~= head1 + d1);
    assert(id =~= head2 + d2);
    // The character just before the decimal suffix is the separator `-`,
    // and `-` is not a digit; so neither suffix can be longer than the other.
    assert(head1.last() == '-');
    assert(head2.last() == '-');
    assert(id[len - d1.len() - 1] == '-');
    assert(id[len - d2.len() - 1] == '-');
    if d1.len() < d2.len() {
        let p = len - d1.len() - 1;
        assert(id[p] == d2[p - (len - d2.len())]);
        assert(spec_is_digit('-'));
        assert(false);
    } else if d2.len() < d1.len() {
        let p = len - d2.len() - 1;
        assert(id[p] == d1[p - (len - d1.len())]);
        assert(spec_is_digit('-'));
        assert(false);
    } else {
        assert(d1 =~= id.subrange(len - d1.len(), len));
        assert(d2 =~= id.subrange(len - d2.len(), len));
        lemma_decimal_injective(n1, n2);
    }
}

/// Appends the decimal rendering of `n` to `out`.
pub fn push_decimal(out: &mut String, n: u64)
    ensures
        final(out)@ == old(out)@ + spec_decimal(n as nat),
    decreases n,
{
    let ghost mid = out@;
    if n >= 10 {
        push_decimal(out, n / 10);
        proof {
            assert(out@ == mid + spec_decimal((n / 10) as nat));
        }
    }
    let d = n % 10;
    let digit: &str = if d == 0 {
        "0"
    } else if d == 1 {
        "1"
    } else if d == 2 {
        "2"
    } else if d == 3 {
        "3"
    } else if d == 4 {
        "4"
    } else if d == 5 {
        "5"
    } else if d == 6 {
        "6"
    } else if d == 7 {
        "7"
    } else if d == 8 {
        "8"
    } else {
        "9"
    };
    proof {
        reveal_strlit("0");
        reveal_strlit("1");
        reveal_strlit("2");
        reveal_strlit("3");
        reveal_strlit("4");
        reveal_strlit("5");
        reveal_strlit("6");
        reveal_strlit("7");
        reveal_strlit("8");
        reveal_strlit("9");
        assert(digit@ =~= seq![spec_digit_char((n % 10) as nat)]);
    }
    out.append(digit);
    proof {
        if n < 10 {
            assert(spec_decimal(n as nat) == seq![spec_digit_char(n as nat)]);
            assert(out@ =~= mid + spec_decimal(n as nat));
        } else {
            assert(spec_decimal(n as nat) == spec_decimal((n / 10) as nat).push(
                spec_digit_char((n % 10) as nat),
            ));
            assert(out@ =~= mid + spec_decimal(n as nat));
        }
    }
}

/// Removes the ISO-8601 punctuation from a timestamp, keeping the remaining
/// characters in order.
pub fn compact_timestamp(s: &str) -> (r: String)
    ensures
        r@ == spec_compact(s@),
{
    let mut out = String::new();
    let len = s.unicode_len();
    let mut i: usize = 0;
    while i < len
        invariant
            i <= len,
            len == s@.len(),
            out@ == spec_compact(s@.subrange(0, i as int)),
        decreases len - i,
    {
        let c = s.get_char(i);
        if c != '-' && c != ':' && c != 'T' && c != 'Z' {
            let piece = s.substring_char(i, i + 1);
            proof {
                assert(piece@ =~= seq![s@[i as int]]);
            }
            out.append(piece);
        }
        proof {
            let sub1 = s@.subrange(0, i + 1 as int);
            assert(sub1.drop_last() =~= s@.subrange(0, i as int));
            assert(sub1.last() == s@[i as int]);
            assert(out@ =~= spec_compact(sub1));
        }
        i += 1;
    }
    proof {
        assert(s@.subrange(0, len as int) =~= s@);
    }
    out
}

/// Renders the id of the incident with sequence number `seq_no` created at
/// `created_at`.
pub fn render_incident_id(created_at: &str, seq_no: u64) -> (r: String)
    ensures
        r@ == spec_incident_id(created_at@, seq_no as nat),
{
    let mut out = "INC-".to_owned();
    let compact = compact_timestamp(created_at);
    out.append(compact.as_str());
    out.append("-");
    push_decimal(&mut out, seq_no);
    proof {
        assert(out@ =~= spec_incident_id(created_at@, seq_no as nat));
    }
    out
}

} // verus!
