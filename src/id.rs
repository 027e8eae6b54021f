//! Opaque record identifiers: the lowercase hex rendering of the MD5 digest
//! of the salt followed by the domain. MD5 is used as a stable fingerprint
//! that hides provider identifiers from casual observers; it is not a
//! security measure and distinct domains are not guaranteed distinct ids.
use vstd::prelude::*;
use vstd::string::*;

verus! {

/// The MD5 digest of the UTF-8 encoding of a text.
pub uninterp spec fn md5_of(text: Seq<char>) -> Seq<u8>;

/// Relies on md5::compute: the sixteen digest bytes of the input's bytes.
#[verifier::external_body]
fn md5_digest(text: &str) -> (r: Vec<u8>)
    ensures
        r@ == md5_of(text@),
        r@.len() == 16,
{
    md5::compute(text).0.to_vec()
}

pub open spec fn hex_digits() -> Seq<char> {
    seq!['0', '1', '2', '3', '4', '5', '6', '7', '8', '9', 'a', 'b', 'c', 'd', 'e', 'f']
}

pub open spec fn hex_char(n: int) -> char {
    hex_digits()[n]
}

/// Lowercase hex rendering, two digits per byte, high nibble first.
pub open spec fn hex_of(b: Seq<u8>) -> Seq<char>
    decreases b.len(),
{
    if b.len() == 0 {
        seq![]
    } else {
        hex_of(b.drop_last()) + seq![hex_char((b.last() / 16) as int), hex_char((b.last() % 16) as int)]
    }
}

/// The opaque identifier of `domain` under `salt`.
pub open spec fn record_id(salt: Seq<char>, domain: Seq<char>) -> Seq<char> {
    hex_of(md5_of(salt + domain))
}

fn hex_digit(n: u8) -> (r: &'static str)
    requires
        n < 16,
    ensures
        r@ == seq![hex_char(n as int)],
{
    let digits = "0123456789abcdef";
    proof {
        reveal_strlit("0123456789abcdef");
        assert(digits@ =~= hex_digits());
    }
    let r = digits.substring_char(n as usize, n as usize + 1);
    assert(r@ =~= seq![hex_char(n as int)]);
    r
}

/// Renders bytes as lowercase hex.
pub fn to_hex(bytes: &Vec<u8>) -> (r: String)
    ensures
        r@ == hex_of(bytes@),
{
    let mut s = String::new();
    let mut i: usize = 0;
    while i < bytes.len()
        invariant
            i <= bytes@.len(),
            s@ == hex_of(bytes@.subrange(0, i as int)),
        decreases bytes@.len() - i,
    {
        let b = bytes[i];
        s.append(hex_digit(b / 16));
        s.append(hex_digit(b % 16));
        proof {
            let next = bytes@.subrange(0, i + 1);
            assert(next.drop_last() =~= bytes@.subrange(0, i as int));
            assert(s@ =~= hex_of(next));
        }
        i = i + 1;
    }
    assert(bytes@.subrange(0, bytes@.len() as int) =~= bytes@);
    s
}

/// The opaque identifier of `domain` under `salt`.
pub fn opaque_id(salt: &str, domain: &str) -> (r: String)
    ensures
        r@ == record_id(salt@, domain@),
{
    let text = String::from_str(salt).concat(domain);
    let digest = md5_digest(text.as_str());
    to_hex(&digest)
}

proof fn lemma_hex_len(b: Seq<u8>)
    ensures
        hex_of(b).len() == 2 * b.len(),
    decreases b.len(),
{
    if b.len() > 0 {
        lemma_hex_len(b.drop_last());
    }
}

proof fn lemma_hex_char_injective(x: int, y: int)
    requires
        0 <= x < 16,
        0 <= y < 16,
        hex_char(x) == hex_char(y),
    ensures
        x == y,
{
}

/// The hex rendering is injective: equal renderings come from equal bytes.
pub proof fn lemma_hex_injective(a: Seq<u8>, b: Seq<u8>)
    requires
        hex_of(a) == hex_of(b),
    ensures
        a == b,
    decreases a.len(),
{
    lemma_hex_len(a);
    lemma_hex_len(b);
    if a.len() > 0 {
        let ha = hex_of(a.drop_last());
        let hb = hex_of(b.drop_last());
        lemma_hex_len(a.drop_last());
        lemma_hex_len(b.drop_last());
        let n = hex_of(a).len();
        assert(hex_of(a)[n - 2] == hex_char((a.last() / 16) as int));
        assert(hex_of(b)[n - 2] == hex_char((b.last() / 16) as int));
        assert(hex_of(a)[n - 1] == hex_char((a.last() % 16) as int));
        assert(hex_of(b)[n - 1] == hex_char((b.last() % 16) as int));
        lemma_hex_char_injective((a.last() / 16) as int, (b.last() / 16) as int);
        lemma_hex_char_injective((a.last() % 16) as int, (b.last() % 16) as int);
        assert(ha =~= hex_of(a).subrange(0, n - 2));
        assert(hb =~= hex_of(b).subrange(0, n - 2));
        lemma_hex_injective(a.drop_last(), b.drop_last());
        assert(a =~= a.drop_last().push(a.last()));
        assert(b =~= b.drop_last().push(b.last()));
    }
}

/// Ids are a function of salt and domain alone: the same pair always gives
/// the same id, and two domains whose salted digests differ get different ids.
pub proof fn lemma_id_determinism(salt: Seq<char>, d1: Seq<char>, d2: Seq<char>)
    ensures
        d1 == d2 ==> record_id(salt, d1) == record_id(salt, d2),
        md5_of(salt + d1) != md5_of(salt + d2) ==> record_id(salt, d1) != record_id(salt, d2),
{
    if record_id(salt, d1) == record_id(salt, d2) {
        lemma_hex_injective(md5_of(salt + d1), md5_of(salt + d2));
    }
}

/// Salt sensitivity up to the digest: two salts whose digests of the same
/// domain differ give that domain different ids.
pub proof fn lemma_id_salt_sensitivity(s1: Seq<char>, s2: Seq<char>, domain: Seq<char>)
    requires
        md5_of(s1 + domain) != md5_of(s2 + domain),
    ensures
        record_id(s1, domain) != record_id(s2, domain),
{
    if record_id(s1, domain) == record_id(s2, domain) {
        lemma_hex_injective(md5_of(s1 + domain), md5_of(s2 + domain));
    }
}

} // verus!
