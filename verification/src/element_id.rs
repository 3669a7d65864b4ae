//! Element identifiers and the identifier derived for a matched-geometry pair.
use std::collections::hash_map::DefaultHasher;
use std::hash::Hasher;
use vstd::prelude::*;
use vstd::std_specs::hash::DefaultHasherAdditionalSpecFns;

verus! {

/// Identifies an element across frames.
#[derive(Clone, Debug, Hash, PartialEq, Eq)]
pub enum ElementId {
    /// A named element.
    Name(String),
    /// An element identified by a number.
    Integer(u64),
    /// A named element with a number, e.g. one item of a named family.
    NamedInteger(String, u64),
}

/// The value of an element identifier.
pub enum ElementIdView {
    Name(Seq<char>),
    Integer(u64),
    NamedInteger(Seq<char>, u64),
}

impl View for ElementId {
    type V = ElementIdView;

    open spec fn view(&self) -> ElementIdView {
        match self {
            ElementId::Name(name) => ElementIdView::Name(name@),
            ElementId::Integer(n) => ElementIdView::Integer(*n),
            ElementId::NamedInteger(name, n) => ElementIdView::NamedInteger(name@, *n),
        }
    }
}

/// The four bytes of a 32-bit value, least significant first.
pub open spec fn le_u32(x: u32) -> Seq<u8> {
    seq![(x % 256) as u8, ((x / 256) % 256) as u8, ((x / 65536) % 256) as u8, (x / 16777216) as u8]
}

/// The eight bytes of a 64-bit value, least significant first.
pub open spec fn le_u64(x: u64) -> Seq<u8> {
    le_u32((x % 4294967296) as u32) + le_u32((x / 4294967296) as u32)
}

/// The code points of a name, four bytes each, least significant first.
pub open spec fn char_bytes(s: Seq<char>) -> Seq<u8>
    decreases s.len(),
{
    if s.len() == 0 {
        Seq::empty()
    } else {
        char_bytes(s.drop_last()) + le_u32(s.last() as u32)
    }
}

/// A name as written to a hasher: its number of characters, then its code
/// points, so that where one name ends never depends on what follows it.
pub open spec fn name_writes(name: Seq<char>) -> Seq<u8> {
    le_u64(name.len() as u64) + char_bytes(name)
}

/// The writes with which an identifier is fed to a hasher: a tag for its
/// kind, then its name and its number. The encoding is the same on every
/// machine.
pub open spec fn id_writes(id: ElementIdView) -> Seq<Seq<u8>> {
    match id {
        ElementIdView::Name(name) => seq![seq![0u8], name_writes(name)],
        ElementIdView::Integer(n) => seq![seq![1u8], le_u64(n)],
        ElementIdView::NamedInteger(name, n) => seq![seq![2u8], name_writes(name), le_u64(n)],
    }
}

/// The digest of a namespace and an identifier: a fresh `DefaultHasher` fed
/// with both, in that order.
pub open spec fn pair_digest(namespace: ElementIdView, id: ElementIdView) -> u64 {
    DefaultHasher::spec_finish(id_writes(namespace) + id_writes(id))
}

/// The element identifier of a matched-geometry wrapper for the pair.
pub open spec fn matched_element_id(namespace: ElementIdView, id: ElementIdView) -> ElementIdView {
    ElementIdView::NamedInteger("matched-geo"@, pair_digest(namespace, id))
}

fn push_le_u32(bytes: &mut Vec<u8>, x: u32)
    ensures
        final(bytes)@ == old(bytes)@ + le_u32(x),
{
    bytes.push((x % 256) as u8);
    bytes.push(((x / 256) % 256) as u8);
    bytes.push(((x / 65536) % 256) as u8);
    bytes.push((x / 16777216) as u8);
    proof {
        assert(final(bytes)@ =~= old(bytes)@ + le_u32(x));
    }
}

fn name_bytes(name: &String) -> (r: Vec<u8>)
    ensures
        r@ == name_writes(name@),
{
    let s = name.as_str();
    let n = s.unicode_len();
    let mut bytes = number_bytes(n as u64);
    let ghost prefix = bytes@;
    let mut i: usize = 0;
    proof {
        assert(char_bytes(s@.take(0)) =~= Seq::<u8>::empty());
        assert(bytes@ =~= prefix + char_bytes(s@.take(0)));
    }
    while i < n
        invariant
            n == s@.len(),
            s@ == name@,
            i <= n,
            prefix == le_u64(n as u64),
            bytes@ == prefix + char_bytes(s@.take(i as int)),
        decreases n - i,
    {
        let c = s.get_char(i);
        proof {
            assert(s@.take(i + 1).drop_last() =~= s@.take(i as int));
            assert(s@.take(i + 1).last() == c);
        }
        push_le_u32(&mut bytes, c as u32);
        proof {
            assert(bytes@ =~= prefix + char_bytes(s@.take(i + 1)));
        }
        i = i + 1;
    }
    proof {
        assert(s@.take(n as int) =~= s@);
    }
    bytes
}

fn number_bytes(x: u64) -> (r: Vec<u8>)
    ensures
        r@ == le_u64(x),
{
    let mut bytes: Vec<u8> = Vec::new();
    push_le_u32(&mut bytes, (x % 4294967296) as u32);
    push_le_u32(&mut bytes, (x / 4294967296) as u32);
    proof {
        assert(bytes@ =~= le_u64(x));
    }
    bytes
}

fn write_id(hasher: &mut DefaultHasher, id: &ElementId)
    ensures
        final(hasher)@ == old(hasher)@ + id_writes(id@),
{
    match id {
        ElementId::Name(name) => {
            let tag: Vec<u8> = vec![0u8];
            proof {
                assert(tag@ =~= seq![0u8]);
            }
            hasher.write(tag.as_slice());
            let bytes = name_bytes(name);
            hasher.write(bytes.as_slice());
        },
        ElementId::Integer(n) => {
            let tag: Vec<u8> = vec![1u8];
            proof {
                assert(tag@ =~= seq![1u8]);
            }
            hasher.write(tag.as_slice());
            let bytes = number_bytes(*n);
            hasher.write(bytes.as_slice());
        },
        ElementId::NamedInteger(name, n) => {
            let tag: Vec<u8> = vec![2u8];
            proof {
                assert(tag@ =~= seq![2u8]);
            }
            hasher.write(tag.as_slice());
            let bytes = name_bytes(name);
            hasher.write(bytes.as_slice());
            let bytes = number_bytes(*n);
            hasher.write(bytes.as_slice());
        },
    }
    proof {
        assert(hasher@ =~= old(hasher)@ + id_writes(id@));
    }
}

/// The element identifier under which the wrapper of the pair
/// `(namespace, id)` keeps its per-element state.
pub fn make_element_id(namespace: &ElementId, id: &ElementId) -> (r: ElementId)
    ensures
        r@ == matched_element_id(namespace@, id@),
        r@ == ElementIdView::NamedInteger(
            "matched-geo"@,
            DefaultHasher::spec_finish(id_writes(namespace@) + id_writes(id@)),
        ),
{
    let mut hasher = DefaultHasher::new();
    write_id(&mut hasher, namespace);
    write_id(&mut hasher, id);
    proof {
        assert(hasher@ =~= id_writes(namespace@) + id_writes(id@));
    }
    let digest = hasher.finish();
    ElementId::NamedInteger(String::from_str("matched-geo"), digest)
}

/// Every name in the identifier has a length that a 64-bit count can hold.
pub open spec fn fits_count(id: ElementIdView) -> bool {
    match id {
        ElementIdView::Name(name) => name.len() <= u64::MAX,
        ElementIdView::Integer(_) => true,
        ElementIdView::NamedInteger(name, _) => name.len() <= u64::MAX,
    }
}

/// The bytes of an identifier's writes, one after another.
pub open spec fn id_bytes(id: ElementIdView) -> Seq<u8> {
    match id {
        ElementIdView::Name(name) => seq![0u8] + name_writes(name),
        ElementIdView::Integer(n) => seq![1u8] + le_u64(n),
        ElementIdView::NamedInteger(name, n) => seq![2u8] + name_writes(name) + le_u64(n),
    }
}

proof fn lemma_split<A>(p1: Seq<A>, r1: Seq<A>, p2: Seq<A>, r2: Seq<A>)
    requires
        p1 + r1 == p2 + r2,
        p1.len() == p2.len(),
    ensures
        p1 == p2,
        r1 == r2,
{
    assert(p1 =~= (p1 + r1).subrange(0, p1.len() as int));
    assert(p2 =~= (p2 + r2).subrange(0, p2.len() as int));
    assert(r1 =~= (p1 + r1).subrange(p1.len() as int, (p1 + r1).len() as int));
    assert(r2 =~= (p2 + r2).subrange(p2.len() as int, (p2 + r2).len() as int));
}

proof fn lemma_le_u32_injective(x: u32, y: u32)
    requires
        le_u32(x) == le_u32(y),
    ensures
        x == y,
{
    assert(le_u32(x)[0] == le_u32(y)[0]);
    assert(le_u32(x)[1] == le_u32(y)[1]);
    assert(le_u32(x)[2] == le_u32(y)[2]);
    assert(le_u32(x)[3] == le_u32(y)[3]);
    assert(x % 256 == y % 256);
    assert((x / 256) % 256 == (y / 256) % 256);
    assert((x / 65536) % 256 == (y / 65536) % 256);
    assert(x / 16777216 == y / 16777216);
    assert(x == y) by (bit_vector)
        requires
            x % 256 == y % 256,
            (x / 256) % 256 == (y / 256) % 256,
            (x / 65536) % 256 == (y / 65536) % 256,
            x / 16777216 == y / 16777216,
    ;
}

proof fn lemma_le_u64_injective(x: u64, y: u64)
    requires
        le_u64(x) == le_u64(y),
    ensures
        x == y,
{
    let xl = (x % 4294967296) as u32;
    let xh = (x / 4294967296) as u32;
    let yl = (y % 4294967296) as u32;
    let yh = (y / 4294967296) as u32;
    lemma_split(le_u32(xl), le_u32(xh), le_u32(yl), le_u32(yh));
    lemma_le_u32_injective(xl, yl);
    lemma_le_u32_injective(xh, yh);
    assert(x % 4294967296 == y % 4294967296);
    assert(x / 4294967296 == y / 4294967296);
    assert(x == y) by (bit_vector)
        requires
            x % 4294967296 == y % 4294967296,
            x / 4294967296 == y / 4294967296,
    ;
}

proof fn lemma_char_bytes_len(s: Seq<char>)
    ensures
        char_bytes(s).len() == 4 * s.len(),
    decreases s.len(),
{
    if s.len() > 0 {
        lemma_char_bytes_len(s.drop_last());
    }
}

proof fn lemma_char_bytes_injective(s: Seq<char>, t: Seq<char>)
    requires
        s.len() == t.len(),
        char_bytes(s) == char_bytes(t),
    ensures
        s == t,
    decreases s.len(),
{
    if s.len() == 0 {
        assert(s =~= t);
    } else {
        lemma_char_bytes_len(s.drop_last());
        lemma_char_bytes_len(t.drop_last());
        lemma_split(
            char_bytes(s.drop_last()),
            le_u32(s.last() as u32),
            char_bytes(t.drop_last()),
            le_u32(t.last() as u32),
        );
        lemma_le_u32_injective(s.last() as u32, t.last() as u32);
        vstd::utf8::char_u32_cast(s.last(), s.last() as u32);
        vstd::utf8::char_u32_cast(t.last(), t.last() as u32);
        lemma_char_bytes_injective(s.drop_last(), t.drop_last());
        assert(s =~= s.drop_last().push(s.last()));
        assert(t =~= t.drop_last().push(t.last()));
    }
}

proof fn lemma_name_prefix_free(s: Seq<char>, rs: Seq<u8>, t: Seq<char>, rt: Seq<u8>)
    requires
        s.len() <= u64::MAX,
        t.len() <= u64::MAX,
        name_writes(s) + rs == name_writes(t) + rt,
    ensures
        s == t,
        rs == rt,
{
    let ls = le_u64(s.len() as u64);
    let lt = le_u64(t.len() as u64);
    assert(name_writes(s) + rs =~= ls + (char_bytes(s) + rs));
    assert(name_writes(t) + rt =~= lt + (char_bytes(t) + rt));
    lemma_split(ls, char_bytes(s) + rs, lt, char_bytes(t) + rt);
    lemma_le_u64_injective(s.len() as u64, t.len() as u64);
    lemma_char_bytes_len(s);
    lemma_char_bytes_len(t);
    lemma_split(char_bytes(s), rs, char_bytes(t), rt);
    lemma_char_bytes_injective(s, t);
}

proof fn lemma_tagged_prefix_free(
    tag: u8,
    p: Seq<u8>,
    rp: Seq<u8>,
    q: Seq<u8>,
    rq: Seq<u8>,
)
    requires
        (seq![tag] + p) + rp == (seq![tag] + q) + rq,
    ensures
        p + rp == q + rq,
{
    assert((seq![tag] + p) + rp =~= seq![tag] + (p + rp));
    assert((seq![tag] + q) + rq =~= seq![tag] + (q + rq));
    lemma_split(seq![tag], p + rp, seq![tag], q + rq);
}

proof fn lemma_id_bytes_prefix_free(a: ElementIdView, ra: Seq<u8>, b: ElementIdView, rb: Seq<u8>)
    requires
        fits_count(a),
        fits_count(b),
        id_bytes(a) + ra == id_bytes(b) + rb,
    ensures
        a == b,
        ra == rb,
{
    let sa = id_bytes(a) + ra;
    let sb = id_bytes(b) + rb;
    assert(sa[0] == id_bytes(a)[0]);
    assert(sb[0] == id_bytes(b)[0]);
    if let ElementIdView::Name(s) = a {
        if let ElementIdView::Name(t) = b {
            lemma_tagged_prefix_free(0u8, name_writes(s), ra, name_writes(t), rb);
            lemma_name_prefix_free(s, ra, t, rb);
        }
    } else if let ElementIdView::Integer(m) = a {
        if let ElementIdView::Integer(n) = b {
            lemma_tagged_prefix_free(1u8, le_u64(m), ra, le_u64(n), rb);
            lemma_split(le_u64(m), ra, le_u64(n), rb);
            lemma_le_u64_injective(m, n);
        }
    } else if let ElementIdView::NamedInteger(s, m) = a {
        if let ElementIdView::NamedInteger(t, n) = b {
            let ps = name_writes(s) + le_u64(m);
            let pt = name_writes(t) + le_u64(n);
            assert(id_bytes(a) == seq![2u8] + ps);
            assert(id_bytes(b) == seq![2u8] + pt);
            lemma_tagged_prefix_free(2u8, ps, ra, pt, rb);
            assert(ps + ra =~= name_writes(s) + (le_u64(m) + ra));
            assert(pt + rb =~= name_writes(t) + (le_u64(n) + rb));
            lemma_name_prefix_free(s, le_u64(m) + ra, t, le_u64(n) + rb);
            lemma_split(le_u64(m), ra, le_u64(n), rb);
            lemma_le_u64_injective(m, n);
        }
    }
}

proof fn lemma_flatten_two(x: Seq<u8>, y: Seq<u8>)
    ensures
        seq![x, y].flatten() == x + y,
{
    assert(seq![x, y] =~= seq![x] + seq![y]);
    vstd::seq_lib::lemma_flatten_concat(seq![x], seq![y]);
    seq![x].lemma_flatten_one_element();
    seq![y].lemma_flatten_one_element();
}

proof fn lemma_writes_flatten(id: ElementIdView)
    ensures
        id_writes(id).flatten() == id_bytes(id),
{
    match id {
        ElementIdView::Name(name) => {
            lemma_flatten_two(seq![0u8], name_writes(name));
        },
        ElementIdView::Integer(n) => {
            lemma_flatten_two(seq![1u8], le_u64(n));
        },
        ElementIdView::NamedInteger(name, n) => {
            let w = id_writes(id);
            assert(w =~= seq![seq![2u8], name_writes(name)] + seq![le_u64(n)]);
            vstd::seq_lib::lemma_flatten_concat(seq![seq![2u8], name_writes(name)], seq![le_u64(n)]);
            lemma_flatten_two(seq![2u8], name_writes(name));
            seq![le_u64(n)].lemma_flatten_one_element();
        },
    }
}

/// Distinct pairs never feed the hasher the same bytes: the stream written
/// for a namespace followed by an identifier determines both of them, so two
/// pairs can share a matched-geometry element only through a collision of
/// the hash itself.
pub proof fn lemma_pair_stream_determines_pair(
    n1: ElementIdView,
    i1: ElementIdView,
    n2: ElementIdView,
    i2: ElementIdView,
)
    requires
        fits_count(n1),
        fits_count(i1),
        fits_count(n2),
        fits_count(i2),
        (id_writes(n1) + id_writes(i1)).flatten() == (id_writes(n2) + id_writes(i2)).flatten(),
    ensures
        n1 == n2,
        i1 == i2,
{
    vstd::seq_lib::lemma_flatten_concat(id_writes(n1), id_writes(i1));
    vstd::seq_lib::lemma_flatten_concat(id_writes(n2), id_writes(i2));
    lemma_writes_flatten(n1);
    lemma_writes_flatten(i1);
    lemma_writes_flatten(n2);
    lemma_writes_flatten(i2);
    lemma_id_bytes_prefix_free(n1, id_bytes(i1), n2, id_bytes(i2));
    assert(id_bytes(i1) + Seq::<u8>::empty() =~= id_bytes(i1));
    assert(id_bytes(i2) + Seq::<u8>::empty() =~= id_bytes(i2));
    lemma_id_bytes_prefix_free(i1, Seq::empty(), i2, Seq::empty());
}

/// The element id of a pair is the digest that a fresh `DefaultHasher`
/// gives for the writes of the namespace followed by those of the whole
/// identifier, name and number alike; and those writes determine the pair,
/// so two pairs share an element id only through a collision of the hash.
pub proof fn lemma_matched_id_hashes_whole_pair(
    n1: ElementIdView,
    i1: ElementIdView,
    n2: ElementIdView,
    i2: ElementIdView,
)
    requires
        fits_count(n1),
        fits_count(i1),
        fits_count(n2),
        fits_count(i2),
    ensures
        matched_element_id(n1, i1) == ElementIdView::NamedInteger(
            "matched-geo"@,
            DefaultHasher::spec_finish(id_writes(n1) + id_writes(i1)),
        ),
        (id_writes(n1) + id_writes(i1)).flatten() == (id_writes(n2) + id_writes(i2)).flatten() ==> n1
            == n2 && i1 == i2,
{
    if (id_writes(n1) + id_writes(i1)).flatten() == (id_writes(n2) + id_writes(i2)).flatten() {
        lemma_pair_stream_determines_pair(n1, i1, n2, i2);
    }
}

} // verus!
