//! Download identifiers: a 128-bit value with a 16-hex-digit short form
//! (the gid), the full hyphenated UUID text form, and resolution of user
//! input by unique gid prefix.

use vstd::prelude::*;

verus! {

use crate::numfmt::{hex_digits_fixed, u64_to_hex16, u64_to_hex_width};
use crate::text::{hex_value, is_hex_char, lowered};
use crate::util::{lower_chars, string_chars};
use crate::input::{starts_with, vec_eq_str, vec_starts_with};
use vstd::arithmetic::power::pow;
use vstd::string::StringExecFns;

/// A download identifier: 128 bits, held as the big-endian high and low
/// halves of the underlying UUID.
#[derive(Debug, Clone, Copy, PartialEq, Eq, Hash, Structural)]
pub struct DownloadId {
    /// The first eight bytes, big-endian: the half the gid encodes.
    pub hi: u64,
    /// The last eight bytes, big-endian.
    pub lo: u64,
}

/// Why an identifier string did not resolve.
#[derive(Debug, Clone, Copy, PartialEq, Eq)]
pub enum IdError {
    /// No known download matches.
    NotFound,
    /// More than one download matches the prefix.
    Ambiguous,
    /// The string is neither a gid nor a UUID.
    Invalid,
}

/// The gid of an identifier: sixteen lowercase hex digits of its high
/// half.
pub open spec fn spec_gid(id: DownloadId) -> Seq<char> {
    hex_digits_fixed(id.hi as nat, 16)
}

/// Whether every character is a hexadecimal digit, in either case.
pub open spec fn all_hex(s: Seq<char>) -> bool {
    forall|i: int| 0 <= i < s.len() ==> is_hex_char(s[i])
}

/// The value of a sequence of hexadecimal digits, most significant first.
pub open spec fn hex_seq_value(s: Seq<char>) -> nat
    decreases s.len(),
{
    if s.len() == 0 {
        0
    } else {
        hex_seq_value(s.drop_last()) * 16 + hex_value(s.last())
    }
}

/// What parsing a gid owes: exactly sixteen hex digits, read into the high
/// half; the low half of the returned identifier is zero-filled, so the
/// round trip through the short form is lossy by design.
pub open spec fn spec_from_gid(s: Seq<char>) -> Option<DownloadId> {
    if s.len() == 16 && all_hex(s) {
        Some(DownloadId { hi: hex_seq_value(s) as u64, lo: 0 })
    } else {
        None
    }
}

/// The hyphenated lowercase UUID text form, 8-4-4-4-12 hex digits.
pub open spec fn spec_uuid_str(hi: u64, lo: u64) -> Seq<char> {
    hex_digits_fixed((hi as nat) / 0x100000000, 8) + "-"@ + hex_digits_fixed(
        ((hi as nat) / 0x10000) % 0x10000,
        4,
    ) + "-"@ + hex_digits_fixed((hi as nat) % 0x10000, 4) + "-"@ + hex_digits_fixed(
        (lo as nat) / 0x1000000000000,
        4,
    ) + "-"@ + hex_digits_fixed((lo as nat) % 0x1000000000000, 12)
}

/// What a UUID string parses to, when it parses; the pair is the big-endian
/// high and low halves.
pub uninterp spec fn uuid_parsed(s: Seq<char>) -> Option<(u64, u64)>;

/// Relies on `uuid::Uuid::parse_str` and `Uuid::as_u64_pair`: parsing is a
/// pure function of the input; the canonical hyphenated lowercase form of a
/// UUID parses back to its own value; and its parser accepts only inputs of
/// 32, 36, 38 or 45 characters (simple, hyphenated, braced, URN), so any
/// other length fails — in particular the 16-digit short form.
#[verifier::external_body]
fn uuid_parse(s: &str) -> (r: Option<(u64, u64)>)
    ensures
        uuid_parsed(s@) is Some ==> r is Some,
        uuid_parsed(s@) is None ==> r is None,
        r is Some ==> r->0 == uuid_parsed(s@)->0,
        forall|hi: u64, lo: u64| s@ == spec_uuid_str(hi, lo) ==> r == Some((hi, lo)),
        s@.len() != 32 && s@.len() != 36 && s@.len() != 38 && s@.len() != 45 ==> r is None,
{
    uuid::Uuid::parse_str(s).ok().map(|u| u.as_u64_pair())
}

/// Sixteen to the sixteenth is two to the sixty-fourth.
proof fn lemma_pow16_16()
    ensures
        pow(16, 16) == 0x1_0000_0000_0000_0000,
{
    reveal_with_fuel(pow, 17);
}

/// Hex digit characters round-trip through their value.
proof fn lemma_hex_char_value(d: nat)
    requires
        d < 16,
    ensures
        is_hex_char(crate::text::hex_char(d)),
        hex_value(crate::text::hex_char(d)) == d,
{
}

/// A sequence of hex digits is worth less than sixteen to its length.
proof fn lemma_hex_value_bound(s: Seq<char>)
    requires
        all_hex(s),
    ensures
        (hex_seq_value(s) as int) < pow(16, s.len()),
    decreases s.len(),
{
    vstd::arithmetic::power::lemma_pow_positive(16, s.len());
    if s.len() == 0 {
        reveal_with_fuel(pow, 1);
    } else {
        let t = s.drop_last();
        assert(all_hex(t));
        lemma_hex_value_bound(t);
        assert(is_hex_char(s.last()));
        assert(hex_value(s.last()) < 16);
        vstd::arithmetic::power::lemma_pow_adds(16, t.len(), 1);
        vstd::arithmetic::power::lemma_pow1(16);
        assert((hex_seq_value(t) as int) <= pow(16, t.len()) - 1);
        assert((hex_seq_value(t) as int) * 16 <= (pow(16, t.len()) - 1) * 16) by (nonlinear_arith)
            requires
                (hex_seq_value(t) as int) <= pow(16, t.len()) - 1,
        ;
    }
}

/// The fixed-width hex rendering has the stated width, holds hex digits
/// only, and is worth its input modulo the width.
proof fn lemma_hex_digits_fixed_value(n: nat, w: nat)
    ensures
        hex_digits_fixed(n, w).len() == w,
        all_hex(hex_digits_fixed(n, w)),
        (hex_seq_value(hex_digits_fixed(n, w)) as int) == (n as int) % pow(16, w),
    decreases w,
{
    vstd::arithmetic::power::lemma_pow_positive(16, w);
    if w == 0 {
        reveal_with_fuel(pow, 1);
        assert((n as int) % 1 == 0) by {
            vstd::arithmetic::div_mod::lemma_mod_multiples_basic(n as int, 1);
        }
    } else {
        lemma_hex_digits_fixed_value(n / 16, (w - 1) as nat);
        lemma_hex_char_value(n % 16);
        let head = hex_digits_fixed(n / 16, (w - 1) as nat);
        let whole = hex_digits_fixed(n, w);
        assert(whole =~= head + seq![crate::text::hex_char(n % 16)]);
        assert(whole.drop_last() =~= head);
        assert(whole.last() == crate::text::hex_char(n % 16));
        assert(hex_seq_value(whole) == hex_seq_value(head) * 16 + (n % 16));
        vstd::arithmetic::power::lemma_pow_adds(16, (w - 1) as nat, 1);
        vstd::arithmetic::power::lemma_pow1(16);
        vstd::arithmetic::div_mod::lemma_breakdown(n as int, 16, pow(16, (w - 1) as nat) as int);
        assert(pow(16, w) == 16 * pow(16, (w - 1) as nat));
        assert((n as int) % (16 * pow(16, (w - 1) as nat)) == 16 * (((n as int) / 16) % pow(
            16,
            (w - 1) as nat,
        )) + (n as int) % 16);
        assert((hex_seq_value(whole) as int) == (n as int) % pow(16, w)) by (nonlinear_arith)
            requires
                hex_seq_value(whole) == hex_seq_value(head) * 16 + (n % 16),
                (hex_seq_value(head) as int) == ((n as int) / 16) % pow(16, (w - 1) as nat),
                (n as int) % (16 * pow(16, (w - 1) as nat)) == 16 * (((n as int) / 16) % pow(
                    16,
                    (w - 1) as nat,
                )) + (n as int) % 16,
                pow(16, w) == 16 * pow(16, (w - 1) as nat),
                (n as int) % 16 == (n % 16) as int,
        ;
    }
}

/// The short form round trip: parsing a gid back always succeeds, gives an
/// identifier with the same gid, and zero-fills the low half — so it is
/// the exact identity on identifiers whose low half is zero, and resolves
/// to the same record otherwise.
pub proof fn lemma_gid_round_trip(id: DownloadId)
    ensures
        spec_from_gid(spec_gid(id)) == Some(DownloadId { hi: id.hi, lo: 0 }),
        spec_gid(spec_from_gid(spec_gid(id))->0) == spec_gid(id),
        id.lo == 0 ==> spec_from_gid(spec_gid(id)) == Some(id),
{
    lemma_hex_digits_fixed_value(id.hi as nat, 16);
    lemma_pow16_16();
    vstd::arithmetic::div_mod::lemma_small_mod(id.hi as nat, 0x1_0000_0000_0000_0000);
}

impl DownloadId {
    /// The gid: the first sixteen hex digits of the identifier.
    pub fn to_gid(&self) -> (r: String)
        ensures
            r@ == spec_gid(*self),
    {
        u64_to_hex16(self.hi)
    }

    /// Parse a gid; the low half of the result is zero-filled.
    pub fn from_gid(s: &str) -> (r: Option<DownloadId>)
        ensures
            r == spec_from_gid(s@),
    {
        let cs = string_chars(s);
        let n = cs.len();
        if n != 16 {
            return None;
        }
        let mut acc: u64 = 0;
        let mut i: usize = 0;
        proof {
            assert(cs@.take(0) =~= Seq::<char>::empty());
            lemma_pow16_16();
        }
        while i < 16
            invariant
                i <= 16,
                cs@.len() == 16,
                cs@ == s@,
                all_hex(cs@.take(i as int)),
                (acc as nat) == hex_seq_value(cs@.take(i as int)),
            decreases 16 - i,
        {
            let c = cs[i];
            if !crate::text::is_ascii_hex_char(c) {
                proof {
                    assert(!is_hex_char(s@[i as int]));
                    assert(!all_hex(s@));
                }
                return None;
            }
            let v = crate::text::hex_digit_value(c);
            proof {
                lemma_hex_value_bound(cs@.take(i as int));
                vstd::arithmetic::power::lemma_pow_increases(16, i as nat, 15);
                reveal_with_fuel(pow, 17);
                assert(cs@.take(i + 1).drop_last() =~= cs@.take(i as int));
                assert(cs@.take(i + 1).last() == cs@[i as int]);
            }
            acc = acc * 16 + (v as u64);
            i = i + 1;
        }
        proof {
            assert(cs@.take(16) =~= cs@);
        }
        Some(DownloadId { hi: acc, lo: 0 })
    }

    /// Whether this identifier's gid is exactly the given string.
    pub fn matches_gid(&self, gid: &str) -> (r: bool)
        ensures
            r == (gid@ == spec_gid(*self)),
    {
        let g = self.to_gid();
        vec_eq_str(&string_chars(gid), g.as_str())
    }

    /// The full hyphenated lowercase UUID text form.
    pub fn to_uuid_string(&self) -> (r: String)
        ensures
            r@ == spec_uuid_str(self.hi, self.lo),
    {
        proof {
            reveal_strlit("-");
        }
        let mut r = u64_to_hex_width(self.hi / 0x100000000, 8);
        r.append("-");
        let f2 = u64_to_hex_width((self.hi / 0x10000) % 0x10000, 4);
        r.append(f2.as_str());
        r.append("-");
        let f3 = u64_to_hex_width(self.hi % 0x10000, 4);
        r.append(f3.as_str());
        r.append("-");
        let f4 = u64_to_hex_width(self.lo / 0x1000000000000, 4);
        r.append(f4.as_str());
        r.append("-");
        let f5 = u64_to_hex_width(self.lo % 0x1000000000000, 12);
        r.append(f5.as_str());
        r
    }
}

/// The identifier a string parses to, where it parses at all: the gid
/// reading first, else the UUID reading.
pub open spec fn spec_parsed_id(s: Seq<char>) -> DownloadId {
    if spec_from_gid(s) is Some {
        spec_from_gid(s)->0
    } else {
        DownloadId { hi: (uuid_parsed(s)->0).0, lo: (uuid_parsed(s)->0).1 }
    }
}

/// Parse a download identifier: a gid first, else a full UUID.
pub fn parse_download_id(s: &str) -> (r: Result<DownloadId, IdError>)
    ensures
        r matches Ok(id) ==> id == spec_parsed_id(s@),
        spec_from_gid(s@) is Some ==> r == Ok::<_, IdError>(spec_from_gid(s@)->0),
        spec_from_gid(s@) is None && uuid_parsed(s@) is Some ==> r == Ok::<_, IdError>(
            DownloadId { hi: (uuid_parsed(s@)->0).0, lo: (uuid_parsed(s@)->0).1 },
        ),
        spec_from_gid(s@) is None && uuid_parsed(s@) is None ==> r == Err::<DownloadId, _>(
            IdError::Invalid,
        ),
{
    if let Some(id) = DownloadId::from_gid(s) {
        return Ok(id);
    }
    match uuid_parse(s) {
        Some((hi, lo)) => Ok(DownloadId { hi, lo }),
        None => Err(IdError::Invalid),
    }
}

/// Whether the normalized query is a prefix of the identifier's gid.
pub open spec fn matches_prefix(q: Seq<char>, id: DownloadId) -> bool {
    q.len() <= 16 && spec_gid(id).take(q.len() as int) == q
}

/// How many identifiers in the list the query prefixes.
pub open spec fn match_count(ids: Seq<DownloadId>, q: Seq<char>) -> nat
    decreases ids.len(),
{
    if ids.len() == 0 {
        0
    } else {
        (if matches_prefix(q, ids[0]) {
            1nat
        } else {
            0nat
        }) + match_count(ids.drop_first(), q)
    }
}

/// The position of the first identifier the query prefixes.
pub open spec fn first_match(ids: Seq<DownloadId>, q: Seq<char>) -> int
    decreases ids.len(),
{
    if ids.len() == 0 {
        0
    } else if matches_prefix(q, ids[0]) {
        0
    } else {
        1 + first_match(ids.drop_first(), q)
    }
}

/// Appending an identifier adds its own match, and keeps the first match
/// of a list that already has one.
proof fn lemma_match_snoc(ids: Seq<DownloadId>, x: DownloadId, q: Seq<char>)
    ensures
        match_count(ids.push(x), q) == match_count(ids, q) + (if matches_prefix(q, x) {
            1nat
        } else {
            0nat
        }),
        match_count(ids, q) > 0 ==> first_match(ids.push(x), q) == first_match(ids, q),
        match_count(ids, q) == 0 && matches_prefix(q, x) ==> first_match(ids.push(x), q)
            == ids.len(),
    decreases ids.len(),
{
    reveal_with_fuel(match_count, 3);
    reveal_with_fuel(first_match, 3);
    if ids.len() == 0 {
        assert(ids.push(x).drop_first() =~= Seq::<DownloadId>::empty());
        assert(ids.push(x)[0] == x);
    } else {
        assert(ids.push(x)[0] == ids[0]);
        assert(ids.push(x).drop_first() =~= ids.drop_first().push(x));
        lemma_match_snoc(ids.drop_first(), x, q);
    }
}

/// Where exactly one identifier matches, it is the first match.
proof fn lemma_first_match_hits(ids: Seq<DownloadId>, q: Seq<char>)
    requires
        match_count(ids, q) > 0,
    ensures
        0 <= first_match(ids, q) < ids.len(),
        matches_prefix(q, ids[first_match(ids, q)]),
    decreases ids.len(),
{
    if matches_prefix(q, ids[0]) {
    } else {
        lemma_first_match_hits(ids.drop_first(), q);
    }
}

/// A prefix that matches exactly one stored identifier resolves to it: the
/// match count is one and the first match is its position.
pub proof fn lemma_unique_prefix(ids: Seq<DownloadId>, q: Seq<char>, i: int)
    requires
        0 <= i < ids.len(),
        matches_prefix(q, ids[i]),
        forall|j: int| 0 <= j < ids.len() && j != i ==> !matches_prefix(q, #[trigger] ids[j]),
    ensures
        match_count(ids, q) == 1,
        first_match(ids, q) == i,
    decreases ids.len(),
{
    if i == 0 {
        lemma_no_match_zero(ids.drop_first(), q);
    } else {
        assert(!matches_prefix(q, ids[0]));
        lemma_unique_prefix(ids.drop_first(), q, i - 1);
    }
}

/// A list with no matching identifier has a match count of zero.
proof fn lemma_no_match_zero(ids: Seq<DownloadId>, q: Seq<char>)
    requires
        forall|j: int| 0 <= j < ids.len() ==> !matches_prefix(q, #[trigger] ids[j]),
    ensures
        match_count(ids, q) == 0,
    decreases ids.len(),
{
    if ids.len() > 0 {
        lemma_no_match_zero(ids.drop_first(), q);
    }
}


/// Hex digits render lowercase: a short form is unchanged by the
/// normalisation applied to queries.
proof fn lemma_hex_digits_lower(n: nat, w: nat)
    ensures
        lowered(hex_digits_fixed(n, w)) == hex_digits_fixed(n, w),
    decreases w,
{
    if w == 0 {
        assert(lowered(hex_digits_fixed(n, 0)) =~= hex_digits_fixed(n, 0));
    } else {
        lemma_hex_digits_lower(n / 16, (w - 1) as nat);
        assert(forall|d: nat|
            d < 16 ==> crate::text::lower_char(#[trigger] crate::text::hex_char(d))
                == crate::text::hex_char(d));
        assert(lowered(hex_digits_fixed(n, w)) =~= hex_digits_fixed(n, w));
    }
}

/// Equal short forms come from equal high halves.
proof fn lemma_gid_injective(a: DownloadId, b: DownloadId)
    requires
        spec_gid(a) == spec_gid(b),
    ensures
        a.hi == b.hi,
{
    lemma_hex_digits_fixed_value(a.hi as nat, 16);
    lemma_hex_digits_fixed_value(b.hi as nat, 16);
    lemma_pow16_16();
    vstd::arithmetic::div_mod::lemma_small_mod(a.hi as nat, 0x1_0000_0000_0000_0000);
    vstd::arithmetic::div_mod::lemma_small_mod(b.hi as nat, 0x1_0000_0000_0000_0000);
}

/// The full short form of a listed identifier resolves to exactly that
/// record: it is no UUID shape, normalisation leaves it unchanged, it
/// matches its own record, and — as long as no other record shares the
/// same high half, which the short form encodes in full — no other.
/// Together with the contract of `resolve_download_id`, resolving
/// `to_gid` of a listed identifier returns that identifier.
pub proof fn lemma_short_form_resolves(ids: Seq<DownloadId>, i: int)
    requires
        0 <= i < ids.len(),
        forall|j: int| 0 <= j < ids.len() && j != i ==> (#[trigger] ids[j]).hi != ids[i].hi,
    ensures
        !uuid_shaped(spec_gid(ids[i])),
        lowered(spec_gid(ids[i])) == spec_gid(ids[i]),
        match_count(ids, spec_gid(ids[i])) == 1,
        first_match(ids, spec_gid(ids[i])) == i,
{
    let g = spec_gid(ids[i]);
    lemma_hex_digits_fixed_value(ids[i].hi as nat, 16);
    lemma_hex_digits_lower(ids[i].hi as nat, 16);
    assert(spec_gid(ids[i]).take(16) =~= g);
    assert(matches_prefix(g, ids[i]));
    assert forall|j: int| 0 <= j < ids.len() && j != i implies !matches_prefix(
        g,
        #[trigger] ids[j],
    ) by {
        if matches_prefix(g, ids[j]) {
            lemma_hex_digits_fixed_value(ids[j].hi as nat, 16);
            assert(spec_gid(ids[j]).take(16) =~= spec_gid(ids[j]));
            lemma_gid_injective(ids[j], ids[i]);
        }
    }
    lemma_unique_prefix(ids, g, i);
}

/// Whether a string has one of the shapes the UUID parser accepts:
/// simple, hyphenated, braced or URN form.
pub open spec fn uuid_shaped(s: Seq<char>) -> bool {
    s.len() == 32 || s.len() == 36 || s.len() == 38 || s.len() == 45
}

/// Resolve a download identifier string against the known identifiers: a
/// full UUID resolves directly; anything else — the 16-digit short form
/// and its prefixes included — resolves as a gid prefix, which must match
/// exactly one entry.
pub fn resolve_download_id(s: &str, ids: &Vec<DownloadId>) -> (r: Result<DownloadId, IdError>)
    ensures
        uuid_parsed(s@) is Some ==> r == Ok::<_, IdError>(
            DownloadId { hi: (uuid_parsed(s@)->0).0, lo: (uuid_parsed(s@)->0).1 },
        ),
        uuid_parsed(s@) is None || !uuid_shaped(s@) ==> (match_count(ids@, lowered(s@)) == 0
            ==> r == Err::<DownloadId, _>(IdError::NotFound)),
        uuid_parsed(s@) is None || !uuid_shaped(s@) ==> (match_count(ids@, lowered(s@)) == 1
            ==> r == Ok::<_, IdError>(ids@[first_match(ids@, lowered(s@))])),
        uuid_parsed(s@) is None || !uuid_shaped(s@) ==> (match_count(ids@, lowered(s@)) > 1
            ==> r == Err::<DownloadId, _>(IdError::Ambiguous)),
{
    if let Some((hi, lo)) = uuid_parse(s) {
        return Ok(DownloadId { hi, lo });
    }
    let q = lower_chars(&string_chars(s));
    let qlen = q.len();
    let mut count: u64 = 0;
    let mut first: usize = 0;
    let mut i: usize = 0;
    proof {
        assert(ids@.take(0) =~= Seq::<DownloadId>::empty());
    }
    while i < ids.len()
        invariant
            i <= ids@.len(),
            q@ == lowered(s@),
            qlen == q@.len(),
            (count as nat) == match_count(ids@.take(i as int), q@),
            count <= i,
            count > 0 ==> first < i && (first as int) == first_match(ids@.take(i as int), q@),
        decreases ids@.len() - i,
    {
        let g = ids[i].to_gid();
        let gv = string_chars(g.as_str());
        let hit = if qlen <= 16 {
            vec_starts_with(&gv, &q)
        } else {
            false
        };
        proof {
            lemma_hex_digits_fixed_value(ids@[i as int].hi as nat, 16);
            if qlen <= 16 {
                assert(starts_with(gv@, q@) == matches_prefix(q@, ids@[i as int]));
            } else {
                assert(!matches_prefix(q@, ids@[i as int]));
            }
            lemma_match_snoc(ids@.take(i as int), ids@[i as int], q@);
            assert(ids@.take(i + 1) =~= ids@.take(i as int).push(ids@[i as int]));
        }
        if hit {
            if count == 0 {
                first = i;
            }
            count = count + 1;
        }
        i = i + 1;
    }
    proof {
        assert(ids@.take(ids@.len() as int) =~= ids@);
    }
    if count == 0 {
        Err(IdError::NotFound)
    } else if count == 1 {
        Ok(ids[first])
    } else {
        Err(IdError::Ambiguous)
    }
}

} // verus!
