//! The commitment scheme and the proof verifier.
//!
//! A state commitment root is the canonical encoding of the full key/value
//! set it commits to: every key and value is length-prefixed, so the
//! encoding is injective and a root pins down exactly one set. A
//! membership (or non-membership) proof replays the committed entries; the
//! verifier re-encodes them, compares against the root, and looks the
//! claimed key up. Verification is a pure function of root, proof and
//! claim: no mutation, safe to retry.

use vstd::bytes::{lemma_auto_spec_u64_to_from_le_bytes, spec_u64_from_le_bytes, spec_u64_to_le_bytes, u64_to_le_bytes};
use vstd::prelude::*;

verus! {

/// An inclusion/exclusion proof: the ordered path steps (committed
/// entries) that a commitment root was built from. Consumed by the
/// verifier, never persisted.
#[derive(Debug)]
pub struct MembershipProof {
    pub entries: Vec<(Vec<u8>, Vec<u8>)>,
}

/// A key path addressing one slot under a commitment root; the segments
/// are folded into a single length-prefixed key.
#[derive(Debug)]
pub struct MerklePath {
    pub key_path: Vec<Vec<u8>>,
}

/// Byte-for-byte comparison of two byte vectors.
pub fn bytes_eq(a: &Vec<u8>, b: &Vec<u8>) -> (r: bool)
    ensures
        r == (a@ == b@),
{
    if a.len() != b.len() {
        return false;
    }
    let mut i: usize = 0;
    while i < a.len()
        invariant
            i <= a.len(),
            a@.len() == b@.len(),
            forall|j: int| 0 <= j < i ==> a@[j] == b@[j],
        decreases a.len() - i,
    {
        if a[i] != b[i] {
            return false;
        }
        i += 1;
    }
    proof {
        assert(a@ =~= b@);
    }
    true
}

/// The views of a list of byte vectors.
pub open spec fn bytes_view(v: Seq<Vec<u8>>) -> Seq<Seq<u8>> {
    v.map_values(|x: Vec<u8>| x@)
}

/// The views of a list of key/value entries.
pub open spec fn entries_view(v: Seq<(Vec<u8>, Vec<u8>)>) -> Seq<(Seq<u8>, Seq<u8>)> {
    v.map_values(|p: (Vec<u8>, Vec<u8>)| (p.0@, p.1@))
}

/// The eight-byte little-endian length prefix used throughout the scheme.
pub open spec fn le8(x: u64) -> Seq<u8> {
    spec_u64_to_le_bytes(x)
}

/// One entry's encoding: length-prefixed key, length-prefixed value.
pub open spec fn enc_pair(k: Seq<u8>, v: Seq<u8>) -> Seq<u8> {
    le8(k.len() as u64) + k + le8(v.len() as u64) + v
}

/// The canonical encoding of an ordered entry list; a commitment root is
/// exactly this byte sequence.
pub open spec fn encode_entries(s: Seq<(Seq<u8>, Seq<u8>)>) -> Seq<u8>
    decreases s.len(),
{
    if s.len() == 0 {
        Seq::<u8>::empty()
    } else {
        enc_pair(s[0].0, s[0].1) + encode_entries(s.drop_first())
    }
}

/// Every key and value is short enough for its length prefix to be exact.
pub open spec fn entries_fit(s: Seq<(Seq<u8>, Seq<u8>)>) -> bool {
    forall|i: int| 0 <= i < s.len() ==> (#[trigger] s[i]).0.len() <= u64::MAX && s[i].1.len() <= u64::MAX
}

/// No key occurs twice in the entry list.
pub open spec fn entry_keys_unique(s: Seq<(Seq<u8>, Seq<u8>)>) -> bool {
    forall|i: int, j: int| #![trigger s[i], s[j]] 0 <= i < j < s.len() ==> s[i].0 != s[j].0
}

/// A structurally valid entry list: bounded lengths, unique keys.
pub open spec fn entries_wf(s: Seq<(Seq<u8>, Seq<u8>)>) -> bool {
    entries_fit(s) && entry_keys_unique(s)
}

/// First-match lookup of a key in an entry list.
pub open spec fn lookup_value(s: Seq<(Seq<u8>, Seq<u8>)>, k: Seq<u8>) -> Option<Seq<u8>>
    decreases s.len(),
{
    if s.len() == 0 {
        None
    } else if s[0].0 == k {
        Some(s[0].1)
    } else {
        lookup_value(s.drop_first(), k)
    }
}

/// What a successful membership check means: the claimed entries are
/// structurally valid, re-encode to the root, and map the key to the value.
pub open spec fn membership_holds(
    root: Seq<u8>,
    claimed: Seq<(Seq<u8>, Seq<u8>)>,
    key: Seq<u8>,
    value: Seq<u8>,
) -> bool {
    entries_wf(claimed) && encode_entries(claimed) == root && lookup_value(claimed, key)
        == Some(value)
}

/// What a successful non-membership check means: valid entries, matching
/// root, and the key absent.
pub open spec fn non_membership_holds(
    root: Seq<u8>,
    claimed: Seq<(Seq<u8>, Seq<u8>)>,
    key: Seq<u8>,
) -> bool {
    entries_wf(claimed) && encode_entries(claimed) == root && lookup_value(claimed, key) is None
}

pub(crate) fn append_bytes(out: &mut Vec<u8>, src: &Vec<u8>)
    ensures
        final(out)@ == old(out)@ + src@,
{
    let mut i: usize = 0;
    while i < src.len()
        invariant
            i <= src.len(),
            out@ == old(out)@ + src@.subrange(0, i as int),
        decreases src.len() - i,
    {
        out.push(src[i]);
        proof {
            assert(src@.subrange(0, i + 1 as int) =~= src@.subrange(0, i as int).push(src@[i as int]));
        }
        i += 1;
    }
    proof {
        assert(src@.subrange(0, src@.len() as int) =~= src@);
    }
}

fn append_le8(out: &mut Vec<u8>, x: u64)
    ensures
        final(out)@ == old(out)@ + le8(x),
{
    let b = u64_to_le_bytes(x);
    append_bytes(out, &b);
}

/// Splitting a concatenation at a known prefix length recovers its parts.
proof fn lemma_concat_parts(a: Seq<u8>, b: Seq<u8>, c: Seq<u8>, d: Seq<u8>)
    requires
        a.len() == c.len(),
        a + b == c + d,
    ensures
        a == c,
        b == d,
{
    assert forall|i: int| 0 <= i < a.len() implies a[i] == c[i] by {
        assert((a + b)[i] == a[i]);
        assert((c + d)[i] == c[i]);
    }
    assert(a =~= c);
    assert((a + b).len() == a.len() + b.len());
    assert((c + d).len() == c.len() + d.len());
    assert(b.len() == d.len());
    assert forall|i: int| 0 <= i < b.len() implies b[i] == d[i] by {
        assert((a + b)[a.len() + i] == b[i]);
        assert((c + d)[c.len() + i] == d[i]);
    }
    assert(b =~= d);
}

/// The length prefix is eight bytes and injective.
proof fn lemma_le8_props()
    ensures
        forall|x: u64| (#[trigger] le8(x)).len() == 8,
        forall|x: u64, y: u64| #![trigger le8(x), le8(y)] le8(x) == le8(y) ==> x == y,
{
    lemma_auto_spec_u64_to_from_le_bytes();
    assert forall|x: u64, y: u64| #![trigger le8(x), le8(y)] le8(x) == le8(y) implies x == y by {
        assert(spec_u64_from_le_bytes(spec_u64_to_le_bytes(x)) == x);
        assert(spec_u64_from_le_bytes(spec_u64_to_le_bytes(y)) == y);
    }
}

/// The encoding distributes over concatenation of entry lists.
proof fn lemma_encode_append(s1: Seq<(Seq<u8>, Seq<u8>)>, s2: Seq<(Seq<u8>, Seq<u8>)>)
    ensures
        encode_entries(s1 + s2) == encode_entries(s1) + encode_entries(s2),
    decreases s1.len(),
{
    if s1.len() == 0 {
        assert(s1 + s2 =~= s2);
        assert(encode_entries(s1) + encode_entries(s2) =~= encode_entries(s2));
    } else {
        assert((s1 + s2).drop_first() =~= s1.drop_first() + s2);
        lemma_encode_append(s1.drop_first(), s2);
        assert((s1 + s2)[0] == s1[0]);
        assert(encode_entries(s1) + encode_entries(s2) =~= enc_pair(s1[0].0, s1[0].1) + (
        encode_entries(s1.drop_first()) + encode_entries(s2)));
    }
}

/// A non-empty entry list encodes to at least the sixteen prefix bytes.
proof fn lemma_encode_len_lower(s: Seq<(Seq<u8>, Seq<u8>)>)
    requires
        s.len() > 0,
    ensures
        encode_entries(s).len() >= 16,
{
    lemma_le8_props();
}

/// Two prefixed entry encodings that open the same stream are the same
/// entry, with the same remainder.
proof fn lemma_enc_pair_parts(
    k1: Seq<u8>,
    v1: Seq<u8>,
    r1: Seq<u8>,
    k2: Seq<u8>,
    v2: Seq<u8>,
    r2: Seq<u8>,
)
    requires
        k1.len() <= u64::MAX,
        v1.len() <= u64::MAX,
        k2.len() <= u64::MAX,
        v2.len() <= u64::MAX,
        enc_pair(k1, v1) + r1 == enc_pair(k2, v2) + r2,
    ensures
        k1 == k2,
        v1 == v2,
        r1 == r2,
{
    lemma_le8_props();
    let t1 = k1 + (le8(v1.len() as u64) + v1 + r1);
    let t2 = k2 + (le8(v2.len() as u64) + v2 + r2);
    assert(enc_pair(k1, v1) + r1 =~= le8(k1.len() as u64) + t1);
    assert(enc_pair(k2, v2) + r2 =~= le8(k2.len() as u64) + t2);
    lemma_concat_parts(le8(k1.len() as u64), t1, le8(k2.len() as u64), t2);
    assert(k1.len() == k2.len());
    lemma_concat_parts(
        k1,
        le8(v1.len() as u64) + v1 + r1,
        k2,
        le8(v2.len() as u64) + v2 + r2,
    );
    let u1 = v1 + r1;
    let u2 = v2 + r2;
    assert(le8(v1.len() as u64) + v1 + r1 =~= le8(v1.len() as u64) + u1);
    assert(le8(v2.len() as u64) + v2 + r2 =~= le8(v2.len() as u64) + u2);
    lemma_concat_parts(le8(v1.len() as u64), u1, le8(v2.len() as u64), u2);
    assert(v1.len() == v2.len());
    lemma_concat_parts(v1, r1, v2, r2);
}

/// The canonical encoding is injective on structurally valid entry lists:
/// a commitment root pins down exactly one key/value set.
pub proof fn lemma_encode_injective(s1: Seq<(Seq<u8>, Seq<u8>)>, s2: Seq<(Seq<u8>, Seq<u8>)>)
    requires
        entries_fit(s1),
        entries_fit(s2),
        encode_entries(s1) == encode_entries(s2),
    ensures
        s1 == s2,
    decreases s1.len(),
{
    if s1.len() == 0 || s2.len() == 0 {
        if s1.len() != s2.len() {
            if s1.len() > 0 {
                lemma_encode_len_lower(s1);
            } else {
                lemma_encode_len_lower(s2);
            }
        }
        assert(s1 =~= s2);
    } else {
        assert(s1[0].0.len() <= u64::MAX && s1[0].1.len() <= u64::MAX);
        assert(s2[0].0.len() <= u64::MAX && s2[0].1.len() <= u64::MAX);
        lemma_enc_pair_parts(
            s1[0].0,
            s1[0].1,
            encode_entries(s1.drop_first()),
            s2[0].0,
            s2[0].1,
            encode_entries(s2.drop_first()),
        );
        assert forall|i: int| 0 <= i < s1.drop_first().len() implies (#[trigger] s1.drop_first()[i]).0.len()
            <= u64::MAX && s1.drop_first()[i].1.len() <= u64::MAX by {
            assert(s1.drop_first()[i] == s1[i + 1]);
        }
        assert forall|i: int| 0 <= i < s2.drop_first().len() implies (#[trigger] s2.drop_first()[i]).0.len()
            <= u64::MAX && s2.drop_first()[i].1.len() <= u64::MAX by {
            assert(s2.drop_first()[i] == s2[i + 1]);
        }
        lemma_encode_injective(s1.drop_first(), s2.drop_first());
        assert forall|i: int| 0 <= i < s1.len() implies s1[i] == s2[i] by {
            if i == 0 {
                assert(s1[0].0 == s2[0].0 && s1[0].1 == s2[0].1);
                assert(s1[0] =~~= s2[0]);
            } else {
                assert(s1.drop_first()[i - 1] == s2.drop_first()[i - 1]);
                assert(s1[i] == s1.drop_first()[i - 1]);
                assert(s2[i] == s2.drop_first()[i - 1]);
            }
        }
        assert(s1 =~= s2);
    }
}

/// Builds the commitment root for an entry list: its canonical encoding.
pub fn commitment_root(entries: &Vec<(Vec<u8>, Vec<u8>)>) -> (r: Vec<u8>)
    ensures
        r@ == encode_entries(entries_view(entries@)),
{
    let ghost ev = entries_view(entries@);
    let mut out: Vec<u8> = Vec::new();
    let mut i: usize = 0;
    while i < entries.len()
        invariant
            i <= entries.len(),
            ev == entries_view(entries@),
            ev.len() == entries@.len(),
            out@ == encode_entries(ev.subrange(0, i as int)),
        decreases entries.len() - i,
    {
        let ghost pre = out@;
        append_le8(&mut out, entries[i].0.len() as u64);
        append_bytes(&mut out, &entries[i].0);
        append_le8(&mut out, entries[i].1.len() as u64);
        append_bytes(&mut out, &entries[i].1);
        proof {
            reveal_with_fuel(encode_entries, 3);
            assert(ev[i as int] == (entries@[i as int].0@, entries@[i as int].1@));
            assert(out@ =~= pre + enc_pair(ev[i as int].0, ev[i as int].1));
            lemma_encode_append(ev.subrange(0, i as int), seq![ev[i as int]]);
            assert(ev.subrange(0, i + 1 as int) =~= ev.subrange(0, i as int) + seq![ev[i as int]]);
            assert(seq![ev[i as int]][0] == ev[i as int]);
            assert(seq![ev[i as int]].drop_first() =~= Seq::<(Seq<u8>, Seq<u8>)>::empty());
            assert(encode_entries(seq![ev[i as int]]) =~= enc_pair(ev[i as int].0, ev[i as int].1));
        }
        i += 1;
    }
    proof {
        assert(ev.subrange(0, ev.len() as int) =~= ev);
    }
    out
}

fn keys_unique_exec(entries: &Vec<(Vec<u8>, Vec<u8>)>) -> (r: bool)
    ensures
        r == entry_keys_unique(entries_view(entries@)),
{
    let ghost ev = entries_view(entries@);
    let n = entries.len();
    let mut i: usize = 0;
    while i < n
        invariant
            i <= n,
            n == entries@.len(),
            ev == entries_view(entries@),
            forall|a: int, b: int| #![trigger ev[a], ev[b]] 0 <= a < b < n && a < i ==> ev[a].0 != ev[b].0,
        decreases n - i,
    {
        let mut j: usize = i + 1;
        while j < n
            invariant
                i < j <= n,
                n == entries@.len(),
                ev == entries_view(entries@),
                forall|b: int| i < b < j ==> ev[i as int].0 != (#[trigger] ev[b]).0,
            decreases n - j,
        {
            if bytes_eq(&entries[i].0, &entries[j].0) {
                proof {
                    assert(ev[i as int].0 == entries@[i as int].0@);
                    assert(ev[j as int].0 == entries@[j as int].0@);
                }
                return false;
            }
            j += 1;
        }
        i += 1;
    }
    true
}

fn lookup_exec<'a>(entries: &'a Vec<(Vec<u8>, Vec<u8>)>, key: &Vec<u8>) -> (r: Option<
    &'a Vec<u8>,
>)
    ensures
        match r {
            Some(v) => lookup_value(entries_view(entries@), key@) == Some(v@),
            None => lookup_value(entries_view(entries@), key@) is None,
        },
{
    let ghost ev = entries_view(entries@);
    let mut i: usize = 0;
    while i < entries.len()
        invariant
            i <= entries.len(),
            ev == entries_view(entries@),
            ev.len() == entries@.len(),
            forall|j: int| 0 <= j < i ==> (#[trigger] ev[j]).0 != key@,
        decreases entries.len() - i,
    {
        if bytes_eq(&entries[i].0, key) {
            proof {
                lemma_lookup_at_first_match(ev, key@, i as int);
            }
            return Some(&entries[i].1);
        }
        i += 1;
    }
    proof {
        lemma_lookup_all_miss(ev, key@);
    }
    None
}

/// Lookup finds the first matching entry.
proof fn lemma_lookup_at_first_match(s: Seq<(Seq<u8>, Seq<u8>)>, k: Seq<u8>, i: int)
    requires
        0 <= i < s.len(),
        s[i].0 == k,
        forall|j: int| 0 <= j < i ==> (#[trigger] s[j]).0 != k,
    ensures
        lookup_value(s, k) == Some(s[i].1),
    decreases i,
{
    if i == 0 {
    } else {
        assert forall|j: int| 0 <= j < i - 1 implies (#[trigger] s.drop_first()[j]).0 != k by {
            assert(s.drop_first()[j] == s[j + 1]);
        }
        assert(s.drop_first()[i - 1] == s[i]);
        lemma_lookup_at_first_match(s.drop_first(), k, i - 1);
    }
}

/// Lookup misses when no entry carries the key.
proof fn lemma_lookup_all_miss(s: Seq<(Seq<u8>, Seq<u8>)>, k: Seq<u8>)
    requires
        forall|j: int| 0 <= j < s.len() ==> (#[trigger] s[j]).0 != k,
    ensures
        lookup_value(s, k) is None,
    decreases s.len(),
{
    if s.len() > 0 {
        assert forall|j: int| 0 <= j < s.drop_first().len() implies (#[trigger] s.drop_first()[j]).0
            != k by {
            assert(s.drop_first()[j] == s[j + 1]);
        }
        lemma_lookup_all_miss(s.drop_first(), k);
    }
}

/// Entry lists held in vectors always have bounded key and value lengths.
proof fn lemma_vec_entries_fit(v: Seq<(Vec<u8>, Vec<u8>)>)
    ensures
        entries_fit(entries_view(v)),
{
    let ev = entries_view(v);
    assert forall|i: int| 0 <= i < ev.len() implies (#[trigger] ev[i]).0.len() <= u64::MAX
        && ev[i].1.len() <= u64::MAX by {
        assert(ev[i] == (v[i].0@, v[i].1@));
        vstd::std_specs::vec::axiom_spec_len(&v[i].0);
        vstd::std_specs::vec::axiom_spec_len(&v[i].1);
    }
}

/// Checks a claimed key/value fact against a commitment root.
pub fn check_membership(root: &Vec<u8>, proof: &MembershipProof, key: &Vec<u8>, value: &Vec<u8>) -> (r:
    bool)
    ensures
        r == membership_holds(root@, entries_view(proof.entries@), key@, value@),
{
    proof {
        lemma_vec_entries_fit(proof.entries@);
    }
    if !keys_unique_exec(&proof.entries) {
        return false;
    }
    let enc = commitment_root(&proof.entries);
    if !bytes_eq(&enc, root) {
        return false;
    }
    match lookup_exec(&proof.entries, key) {
        Some(v) => bytes_eq(v, value),
        None => false,
    }
}

/// Checks a claimed key-absence fact against a commitment root.
pub fn check_non_membership(root: &Vec<u8>, proof: &MembershipProof, key: &Vec<u8>) -> (r: bool)
    ensures
        r == non_membership_holds(root@, entries_view(proof.entries@), key@),
{
    proof {
        lemma_vec_entries_fit(proof.entries@);
    }
    if !keys_unique_exec(&proof.entries) {
        return false;
    }
    let enc = commitment_root(&proof.entries);
    if !bytes_eq(&enc, root) {
        return false;
    }
    match lookup_exec(&proof.entries, key) {
        Some(_) => false,
        None => true,
    }
}

/// Law (proof round-trip, membership): against the root built from a valid
/// entry list, a membership check passes exactly for the honest entry list
/// and the true value of the key — a tampered value or fabricated entry
/// list never passes.
pub proof fn lemma_membership_exact(
    entries: Seq<(Seq<u8>, Seq<u8>)>,
    claimed: Seq<(Seq<u8>, Seq<u8>)>,
    key: Seq<u8>,
    value: Seq<u8>,
)
    requires
        entries_wf(entries),
    ensures
        membership_holds(encode_entries(entries), claimed, key, value) <==> (claimed == entries
            && lookup_value(entries, key) == Some(value)),
{
    if membership_holds(encode_entries(entries), claimed, key, value) {
        lemma_encode_injective(claimed, entries);
    }
}

/// Law (proof round-trip, non-membership): against the root built from a
/// valid entry list, a non-membership check passes exactly for the honest
/// entry list and a key that list does not contain.
pub proof fn lemma_non_membership_exact(
    entries: Seq<(Seq<u8>, Seq<u8>)>,
    claimed: Seq<(Seq<u8>, Seq<u8>)>,
    key: Seq<u8>,
)
    requires
        entries_wf(entries),
    ensures
        non_membership_holds(encode_entries(entries), claimed, key) <==> (claimed == entries
            && lookup_value(entries, key) is None),
{
    if non_membership_holds(encode_entries(entries), claimed, key) {
        lemma_encode_injective(claimed, entries);
    }
}

/// Folds a key path into the single length-prefixed key it addresses.
pub open spec fn path_key(segs: Seq<Seq<u8>>) -> Seq<u8>
    decreases segs.len(),
{
    if segs.len() == 0 {
        Seq::<u8>::empty()
    } else {
        le8(segs[0].len() as u64) + segs[0] + path_key(segs.drop_first())
    }
}

proof fn lemma_path_key_append(s1: Seq<Seq<u8>>, s2: Seq<Seq<u8>>)
    ensures
        path_key(s1 + s2) == path_key(s1) + path_key(s2),
    decreases s1.len(),
{
    if s1.len() == 0 {
        assert(s1 + s2 =~= s2);
        assert(path_key(s1) + path_key(s2) =~= path_key(s2));
    } else {
        assert((s1 + s2).drop_first() =~= s1.drop_first() + s2);
        lemma_path_key_append(s1.drop_first(), s2);
        assert((s1 + s2)[0] == s1[0]);
        assert(path_key(s1) + path_key(s2) =~= le8(s1[0].len() as u64) + s1[0] + (path_key(
            s1.drop_first(),
        ) + path_key(s2)));
    }
}

/// Computes the key a merkle path addresses.
pub fn path_to_key(path: &MerklePath) -> (r: Vec<u8>)
    ensures
        r@ == path_key(bytes_view(path.key_path@)),
{
    let ghost pv = bytes_view(path.key_path@);
    let mut out: Vec<u8> = Vec::new();
    let mut i: usize = 0;
    while i < path.key_path.len()
        invariant
            i <= path.key_path.len(),
            pv == bytes_view(path.key_path@),
            pv.len() == path.key_path@.len(),
            out@ == path_key(pv.subrange(0, i as int)),
        decreases path.key_path.len() - i,
    {
        let ghost pre = out@;
        append_le8(&mut out, path.key_path[i].len() as u64);
        append_bytes(&mut out, &path.key_path[i]);
        proof {
            reveal_with_fuel(path_key, 3);
            assert(pv[i as int] == path.key_path@[i as int]@);
            assert(out@ =~= pre + (le8(pv[i as int].len() as u64) + pv[i as int]));
            lemma_path_key_append(pv.subrange(0, i as int), seq![pv[i as int]]);
            assert(pv.subrange(0, i + 1 as int) =~= pv.subrange(0, i as int) + seq![pv[i as int]]);
            assert(seq![pv[i as int]][0] == pv[i as int]);
            assert(seq![pv[i as int]].drop_first() =~= Seq::<Seq<u8>>::empty());
            assert(path_key(seq![pv[i as int]]) =~= le8(pv[i as int].len() as u64) + pv[i as int]);
        }
        i += 1;
    }
    proof {
        assert(pv.subrange(0, pv.len() as int) =~= pv);
    }
    out
}

} // verus!
