use vstd::prelude::*;
use vstd::utf8::encode_utf8;

verus! {

/// The dictionary order on byte strings: the first byte that differs
/// decides, and a prefix comes before what it is a prefix of.
pub open spec fn bytes_le(a: Seq<u8>, b: Seq<u8>) -> bool
    decreases a.len(),
{
    if a.len() == 0 {
        true
    } else if b.len() == 0 {
        false
    } else if a[0] != b[0] {
        a[0] < b[0]
    } else {
        bytes_le(a.drop_first(), b.drop_first())
    }
}

/// The order on texts: the dictionary order of their UTF-8 encodings.
pub open spec fn text_le(a: Seq<char>, b: Seq<char>) -> bool {
    bytes_le(encode_utf8(a), encode_utf8(b))
}

/// The order on subgraph keys: by name, and by routing URL among equal
/// names.
pub open spec fn key_le(a: (Seq<char>, Seq<char>), b: (Seq<char>, Seq<char>)) -> bool {
    if encode_utf8(a.0) == encode_utf8(b.0) {
        text_le(a.1, b.1)
    } else {
        text_le(a.0, b.0)
    }
}

/// Of two byte strings one comes before the other.
pub proof fn bytes_le_total(a: Seq<u8>, b: Seq<u8>)
    ensures
        bytes_le(a, b) || bytes_le(b, a),
    decreases a.len(),
{
    if a.len() > 0 && b.len() > 0 && a[0] == b[0] {
        bytes_le_total(a.drop_first(), b.drop_first());
    }
}

/// Two byte strings that come before each other are the same.
pub proof fn bytes_le_antisymmetric(a: Seq<u8>, b: Seq<u8>)
    requires
        bytes_le(a, b),
        bytes_le(b, a),
    ensures
        a == b,
    decreases a.len(),
{
    if a.len() == 0 || b.len() == 0 {
        assert(a =~= b);
    } else {
        bytes_le_antisymmetric(a.drop_first(), b.drop_first());
        assert(a =~= seq![a[0]] + a.drop_first());
        assert(b =~= seq![b[0]] + b.drop_first());
    }
}

/// Every byte string comes before itself.
pub proof fn bytes_le_reflexive(a: Seq<u8>)
    ensures
        bytes_le(a, a),
    decreases a.len(),
{
    if a.len() > 0 {
        bytes_le_reflexive(a.drop_first());
    }
}

/// The order on byte strings is transitive.
pub proof fn bytes_le_transitive(a: Seq<u8>, b: Seq<u8>, c: Seq<u8>)
    requires
        bytes_le(a, b),
        bytes_le(b, c),
    ensures
        bytes_le(a, c),
    decreases a.len(),
{
    if a.len() > 0 && b.len() > 0 && c.len() > 0 && a[0] == b[0] && b[0] == c[0] {
        bytes_le_transitive(a.drop_first(), b.drop_first(), c.drop_first());
    }
}

/// Of two keys one comes before the other.
pub proof fn key_le_total(a: (Seq<char>, Seq<char>), b: (Seq<char>, Seq<char>))
    ensures
        key_le(a, b) || key_le(b, a),
{
    bytes_le_total(encode_utf8(a.0), encode_utf8(b.0));
    bytes_le_total(encode_utf8(a.1), encode_utf8(b.1));
}

/// The order on keys is transitive.
pub proof fn key_le_transitive(
    a: (Seq<char>, Seq<char>),
    b: (Seq<char>, Seq<char>),
    c: (Seq<char>, Seq<char>),
)
    requires
        key_le(a, b),
        key_le(b, c),
    ensures
        key_le(a, c),
{
    let (an, bn, cn) = (encode_utf8(a.0), encode_utf8(b.0), encode_utf8(c.0));
    let (au, bu, cu) = (encode_utf8(a.1), encode_utf8(b.1), encode_utf8(c.1));
    bytes_le_reflexive(an);
    bytes_le_reflexive(bn);
    if an == bn {
        if bn == cn {
            bytes_le_transitive(au, bu, cu);
        }
    } else if bn == cn {
    } else {
        bytes_le_transitive(an, bn, cn);
        if an == cn {
            bytes_le_antisymmetric(an, bn);
        }
    }
}

/// Decides the dictionary order of two byte strings.
pub fn bytes_precede(a: &[u8], b: &[u8]) -> (le: bool)
    ensures
        le == bytes_le(a@, b@),
{
    let mut i: usize = 0;
    proof {
        assert(a@.skip(0) =~= a@);
        assert(b@.skip(0) =~= b@);
    }
    loop
        invariant
            i <= a@.len(),
            i <= b@.len(),
            bytes_le(a@, b@) == bytes_le(a@.skip(i as int), b@.skip(i as int)),
        decreases a@.len() - i,
    {
        if i == a.len() {
            return true;
        }
        if i == b.len() {
            return false;
        }
        if a[i] != b[i] {
            return a[i] < b[i];
        }
        proof {
            assert(a@.skip(i as int).drop_first() =~= a@.skip(i + 1));
            assert(b@.skip(i as int).drop_first() =~= b@.skip(i + 1));
        }
        i += 1;
    }
}

/// Decides the order of two texts.
pub fn text_precedes(a: &str, b: &str) -> (le: bool)
    ensures
        le == text_le(a@, b@),
{
    bytes_precede(a.as_bytes(), b.as_bytes())
}

/// Decides the order of two keys, given as name and routing URL.
pub fn key_precedes(a_name: &str, a_url: &str, b_name: &str, b_url: &str) -> (le: bool)
    ensures
        le == key_le((a_name@, a_url@), (b_name@, b_url@)),
{
    let forth = text_precedes(a_name, b_name);
    let back = text_precedes(b_name, a_name);
    proof {
        if forth && back {
            bytes_le_antisymmetric(encode_utf8(a_name@), encode_utf8(b_name@));
        }
        bytes_le_reflexive(encode_utf8(a_name@));
    }
    if forth && back {
        text_precedes(a_url, b_url)
    } else {
        forth
    }
}

} // verus!
