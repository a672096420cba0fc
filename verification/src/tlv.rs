//! The type-length-value codec: parsing a flat byte span into an ordered
//! attribute tree and re-encoding a tree into its canonical wire form.
//!
//! On the wire each attribute is a 16-bit little-endian length (which counts
//! its own 4-byte header), a 16-bit little-endian type field whose top bit
//! marks a nested payload and whose next bit marks network byte order, the
//! payload itself, and zero padding up to 4-byte alignment.

use vstd::prelude::*;

use crate::attr::{Attr, AttrV, tree_wf};
use crate::WifiError;

verus! {

/// Number of padding bytes that follow a payload of total length `n`.
pub open spec fn pad4(n: int) -> int {
    if n % 4 == 0 {
        0
    } else {
        4 - n % 4
    }
}

/// `n` rounded up to the next multiple of 4.
pub open spec fn align4(n: int) -> int {
    n + pad4(n)
}

/// The wire type field of an attribute: tag plus the two marker bits.
pub open spec fn type_field(a: AttrV) -> int {
    a.tag + (if a.network_order {
        0x4000int
    } else {
        0int
    }) + (if a.nested {
        0x8000int
    } else {
        0int
    })
}

/// Tag carried by a wire type field: its low 14 bits.
pub open spec fn field_tag(t: int) -> u16 {
    (t % 0x4000) as u16
}

/// Nested marker of a wire type field: its top bit.
pub open spec fn field_nested(t: int) -> bool {
    (t / 0x8000) % 2 == 1
}

/// Network-byte-order marker of a wire type field: its second bit.
pub open spec fn field_network(t: int) -> bool {
    (t / 0x4000) % 2 == 1
}

/// Splitting a 16-bit type field into tag and marker bits and reassembling
/// it gives the field back.
pub proof fn lemma_field_split(t: int)
    requires
        0 <= t < 0x1_0000,
    ensures
        field_tag(t) + (if field_network(t) {
            0x4000int
        } else {
            0int
        }) + (if field_nested(t) {
            0x8000int
        } else {
            0int
        }) == t,
        field_tag(t) < 0x4000,
{
    let q = t / 0x4000;
    let r = t % 0x4000;
    vstd::arithmetic::div_mod::lemma_fundamental_div_mod(t, 0x4000);
    assert(0 <= r < 0x4000) by {
        vstd::arithmetic::div_mod::lemma_mod_bound(t, 0x4000);
    }
    assert(0 <= q < 4);
    assert(t / 0x8000 == q / 2) by {
        vstd::arithmetic::div_mod::lemma_fundamental_div_mod_converse_div(
            t,
            0x8000,
            q / 2,
            r + 0x4000 * (q % 2),
        );
    }
}

/// Reassembling tag and marker bits into a type field and splitting it again
/// gives the parts back.
pub proof fn lemma_field_join(a: AttrV)
    requires
        a.tag < 0x4000,
    ensures
        field_tag(type_field(a)) == a.tag,
        field_nested(type_field(a)) == a.nested,
        field_network(type_field(a)) == a.network_order,
        0 <= type_field(a) < 0x1_0000,
{
    let t = type_field(a);
    let q: int = (if a.network_order {
        1int
    } else {
        0int
    }) + (if a.nested {
        2int
    } else {
        0int
    });
    vstd::arithmetic::div_mod::lemma_fundamental_div_mod_converse_mod(t, 0x4000, q, a.tag as int);
    vstd::arithmetic::div_mod::lemma_fundamental_div_mod_converse_div(t, 0x4000, q, a.tag as int);
    vstd::arithmetic::div_mod::lemma_fundamental_div_mod_converse_div(
        t,
        0x8000,
        q / 2,
        a.tag + 0x4000 * (q % 2),
    );
}

/// Parse a flat byte span as an attribute sequence. `None` is a decode
/// failure: a header that would run past the available bytes or declares a
/// length smaller than itself. The padding of the last attribute may be
/// truncated by the end of the span.
pub open spec fn spec_parse(b: Seq<u8>) -> Option<Seq<AttrV>>
    decreases b.len(),
{
    if b.len() == 0 {
        Some(Seq::empty())
    } else if b.len() < 4 {
        None
    } else {
        let len = b[0] + 0x100 * b[1];
        let tf = b[2] + 0x100 * b[3];
        if len < 4 || len > b.len() {
            None
        } else {
            let step = if align4(len) <= b.len() {
                align4(len)
            } else {
                b.len() as int
            };
            let head = AttrV {
                tag: field_tag(tf),
                nested: field_nested(tf),
                network_order: field_network(tf),
                payload: b.subrange(4, len),
            };
            match spec_parse(b.skip(step)) {
                Some(rest) => Some(seq![head] + rest),
                None => None,
            }
        }
    }
}

/// A byte span is in canonical wire form: it parses, every attribute carries
/// its full padding, and all padding bytes are zero.
pub open spec fn canonical(b: Seq<u8>) -> bool
    decreases b.len(),
{
    if b.len() == 0 {
        true
    } else if b.len() < 4 {
        false
    } else {
        let len = b[0] + 0x100 * b[1];
        &&& 4 <= len
        &&& align4(len) <= b.len()
        &&& (forall|i: int| len <= i < align4(len) ==> b[i] == 0)
        &&& canonical(b.skip(align4(len)))
    }
}

/// A sequence of `n` zero bytes.
pub open spec fn zeros(n: int) -> Seq<u8> {
    Seq::new(n as nat, |i: int| 0u8)
}

/// Canonical wire form of one attribute: header, payload, zero padding.
pub open spec fn encode_one(a: AttrV) -> Seq<u8> {
    let len = a.payload.len() as int + 4;
    let tf = type_field(a);
    seq![
        (len % 0x100) as u8,
        (len / 0x100) as u8,
        (tf % 0x100) as u8,
        (tf / 0x100) as u8,
    ] + a.payload + zeros(pad4(len))
}

/// Canonical wire form of an attribute sequence.
pub open spec fn spec_encode(ats: Seq<AttrV>) -> Seq<u8>
    decreases ats.len(),
{
    if ats.len() == 0 {
        Seq::empty()
    } else {
        encode_one(ats[0]) + spec_encode(ats.drop_first())
    }
}

/// Parse a flat byte span into an ordered attribute tree; fails with a
/// decode error exactly when a type/length header would index past the
/// available bytes or declares a length smaller than its own header.
pub fn parse_attrs(b: &Vec<u8>) -> (r: Result<Vec<Attr>, WifiError>)
    ensures
        match r {
            Ok(ats) => spec_parse(b@) == Some(ats.deep_view()),
            Err(e) => spec_parse(b@) is None && e == WifiError::Decode,
        },
{
    let n = b.len();
    let mut out: Vec<Attr> = Vec::new();
    let mut i: usize = 0;
    proof {
        assert(b@.skip(0) =~= b@);
        assert(out.deep_view() =~= Seq::<AttrV>::empty());
    }
    while i < n
        invariant
            i <= n,
            n == b@.len(),
            spec_parse(b@) == (match spec_parse(b@.skip(i as int)) {
                Some(rest) => Some(out.deep_view() + rest),
                None => None::<Seq<AttrV>>,
            }),
        decreases n - i,
    {
        let ghost pre = b@.skip(i as int);
        if n - i < 4 {
            return Err(WifiError::Decode);
        }
        proof {
            assert(pre[0] == b@[i as int]);
            assert(pre[1] == b@[i as int + 1]);
            assert(pre[2] == b@[i as int + 2]);
            assert(pre[3] == b@[i as int + 3]);
        }
        let len: usize = b[i] as usize + 0x100 * (b[i + 1] as usize);
        let tf: usize = b[i + 2] as usize + 0x100 * (b[i + 3] as usize);
        if len < 4 || len > n - i {
            return Err(WifiError::Decode);
        }
        let pad: usize = (4 - len % 4) % 4;
        proof {
            assert(pad == pad4(len as int));
        }
        let step: usize = if len + pad <= n - i {
            len + pad
        } else {
            n - i
        };
        let mut payload: Vec<u8> = Vec::new();
        let mut j: usize = 0;
        while j < len - 4
            invariant
                j <= len - 4,
                4 <= len,
                i + len <= n,
                n == b@.len(),
                payload@ == b@.subrange(i as int + 4, i as int + 4 + j as int),
            decreases len - 4 - j,
        {
            payload.push(b[i + 4 + j]);
            proof {
                assert(payload@ =~= b@.subrange(i as int + 4, i as int + 4 + (j + 1)));
            }
            j = j + 1;
        }
        let at = Attr {
            tag: (tf % 0x4000) as u16,
            nested: (tf / 0x8000) % 2 == 1,
            network_order: (tf / 0x4000) % 2 == 1,
            payload,
        };
        let ghost head = AttrV {
            tag: field_tag(tf as int),
            nested: field_nested(tf as int),
            network_order: field_network(tf as int),
            payload: pre.subrange(4, len as int),
        };
        proof {
            assert(pre.subrange(4, len as int) =~= b@.subrange(i as int + 4, i as int + len));
            assert(at.deep_view() == head);
            assert(pre.skip(step as int) =~= b@.skip(i as int + step));
        }
        let ghost old_dv = out.deep_view();
        out.push(at);
        proof {
            assert(out.deep_view() =~= old_dv.push(head));
            if spec_parse(b@.skip(i as int + step)) is Some {
                let rest = spec_parse(b@.skip(i as int + step))->Some_0;
                assert(spec_parse(pre) == Some(seq![head] + rest));
                assert(old_dv + (seq![head] + rest) =~= old_dv.push(head) + rest);
            } else {
                assert(spec_parse(pre) is None);
            }
        }
        i = i + step;
    }
    proof {
        assert(b@.skip(n as int) =~= Seq::<u8>::empty());
        assert(out.deep_view() + Seq::<AttrV>::empty() =~= out.deep_view());
    }
    Ok(out)
}

/// Encode one attribute into its canonical wire form.
fn encode_attr(a: &Attr) -> (r: Vec<u8>)
    requires
        a@.wf(),
    ensures
        r@ == encode_one(a@),
{
    let ghost target = encode_one(a@);
    let len: usize = a.payload.len() + 4;
    let tf: u16 = a.tag + (if a.network_order {
        0x4000u16
    } else {
        0u16
    }) + (if a.nested {
        0x8000u16
    } else {
        0u16
    });
    let mut r: Vec<u8> = Vec::new();
    r.push((len % 0x100) as u8);
    r.push((len / 0x100) as u8);
    r.push((tf % 0x100) as u8);
    r.push((tf / 0x100) as u8);
    proof {
        assert(tf == type_field(a@));
        assert(r@ =~= target.take(4));
    }
    let mut j: usize = 0;
    while j < a.payload.len()
        invariant
            j <= a.payload.len(),
            a.payload.len() + 4 <= 0xffff,
            target == encode_one(a@),
            r@ == target.take(4 + j as int),
        decreases a.payload.len() - j,
    {
        r.push(a.payload[j]);
        proof {
            assert(target[4 + j as int] == a.payload@[j as int]);
            assert(target.take(4 + (j + 1)) =~= target.take(4 + j as int).push(target[4 + j as int]));
        }
        j = j + 1;
    }
    let pad: usize = (4 - len % 4) % 4;
    proof {
        assert(pad == pad4(len as int));
        assert(target.len() == 4 + a.payload@.len() + pad);
    }
    let mut k: usize = 0;
    while k < pad
        invariant
            k <= pad,
            target == encode_one(a@),
            target.len() == 4 + a.payload@.len() + pad,
            r@ == target.take(4 + a.payload@.len() + k as int),
        decreases pad - k,
    {
        r.push(0u8);
        proof {
            let m = 4 + a.payload@.len() + k as int;
            assert(target[m] == 0u8);
            assert(target.take(m + 1) =~= target.take(m).push(target[m]));
        }
        k = k + 1;
    }
    proof {
        assert(r@ =~= target);
    }
    r
}

/// Appending one attribute to a tree appends its wire form to the encoding.
proof fn lemma_encode_snoc(s: Seq<AttrV>, a: AttrV)
    ensures
        spec_encode(s.push(a)) == spec_encode(s) + encode_one(a),
    decreases s.len(),
{
    if s.len() == 0 {
        assert(s.push(a).drop_first() =~= Seq::<AttrV>::empty());
        assert(s.push(a)[0] == a);
        assert(spec_encode(Seq::<AttrV>::empty()) == Seq::<u8>::empty());
        assert(spec_encode(s.push(a)) == encode_one(a) + Seq::<u8>::empty());
        assert(spec_encode(s) == Seq::<u8>::empty());
        assert(encode_one(a) + Seq::<u8>::empty() =~= Seq::<u8>::empty() + encode_one(a));
    } else {
        assert(s.push(a).drop_first() =~= s.drop_first().push(a));
        lemma_encode_snoc(s.drop_first(), a);
        assert(s.push(a)[0] == s[0]);
        assert(encode_one(s[0]) + (spec_encode(s.drop_first()) + encode_one(a)) =~= (encode_one(
            s[0],
        ) + spec_encode(s.drop_first())) + encode_one(a));
    }
    assert(spec_encode(s.push(a)) =~= spec_encode(s) + encode_one(a));
}

/// Encode an attribute tree into its canonical wire form.
pub fn encode_attrs(ats: &Vec<Attr>) -> (r: Vec<u8>)
    requires
        tree_wf(ats.deep_view()),
    ensures
        r@ == spec_encode(ats.deep_view()),
{
    let ghost all = ats.deep_view();
    let mut r: Vec<u8> = Vec::new();
    let mut k: usize = 0;
    proof {
        assert(r@ =~= spec_encode(all.take(0)));
    }
    while k < ats.len()
        invariant
            k <= ats.len(),
            all == ats.deep_view(),
            all.len() == ats.len(),
            tree_wf(all),
            r@ == spec_encode(all.take(k as int)),
        decreases ats.len() - k,
    {
        proof {
            assert(all[k as int].wf());
            assert(ats[k as int].deep_view() == all[k as int]);
        }
        let mut chunk = encode_attr(&ats[k]);
        r.append(&mut chunk);
        proof {
            lemma_encode_snoc(all.take(k as int), all[k as int]);
            assert(all.take(k + 1) =~= all.take(k as int).push(all[k as int]));
        }
        k = k + 1;
    }
    proof {
        assert(all.take(ats.len() as int) =~= all);
    }
    r
}

/// Decoding then re-encoding reproduces the original bytes: an attribute
/// tree built from a well-formed (canonical) TLV byte span re-encodes to
/// exactly that span. Canonical form pins the padding down, so "up to
/// padding" becomes equality.
pub proof fn lemma_encode_of_parse(b: Seq<u8>)
    requires
        canonical(b),
    ensures
        spec_parse(b) is Some,
        spec_encode(spec_parse(b)->Some_0) == b,
    decreases b.len(),
{
    if b.len() == 0 {
        assert(spec_encode(Seq::<AttrV>::empty()) =~= b);
    } else {
        let len = b[0] + 0x100 * b[1];
        let tf = b[2] + 0x100 * b[3];
        let step = align4(len);
        let tail = b.skip(step);
        lemma_encode_of_parse(tail);
        let head = AttrV {
            tag: field_tag(tf),
            nested: field_nested(tf),
            network_order: field_network(tf),
            payload: b.subrange(4, len),
        };
        let rest = spec_parse(tail)->Some_0;
        assert(spec_parse(b) == Some(seq![head] + rest));
        lemma_field_split(tf);
        assert(type_field(head) == tf);
        assert(len % 0x100 == b[0] && len / 0x100 == b[1]) by {
            vstd::arithmetic::div_mod::lemma_fundamental_div_mod_converse_mod(
                len,
                0x100,
                b[1] as int,
                b[0] as int,
            );
            vstd::arithmetic::div_mod::lemma_fundamental_div_mod_converse_div(
                len,
                0x100,
                b[1] as int,
                b[0] as int,
            );
        }
        assert(tf % 0x100 == b[2] && tf / 0x100 == b[3]) by {
            vstd::arithmetic::div_mod::lemma_fundamental_div_mod_converse_mod(
                tf,
                0x100,
                b[3] as int,
                b[2] as int,
            );
            vstd::arithmetic::div_mod::lemma_fundamental_div_mod_converse_div(
                tf,
                0x100,
                b[3] as int,
                b[2] as int,
            );
        }
        assert(encode_one(head) =~= b.take(step));
        assert((seq![head] + rest).drop_first() =~= rest);
        assert((seq![head] + rest)[0] == head);
        assert(spec_encode(seq![head] + rest) == encode_one(head) + spec_encode(rest));
        assert(b.take(step) + b.skip(step) =~= b);
    }
}

/// Every tree the parser accepts is well-formed: its tags fit the 14-bit
/// tag space and its payloads fit the 16-bit length field.
pub proof fn lemma_parse_wf(b: Seq<u8>)
    requires
        spec_parse(b) is Some,
    ensures
        tree_wf(spec_parse(b)->Some_0),
    decreases b.len(),
{
    if b.len() == 0 {
    } else {
        let len = b[0] + 0x100 * b[1];
        let tf = b[2] + 0x100 * b[3];
        let step = if align4(len) <= b.len() {
            align4(len)
        } else {
            b.len() as int
        };
        lemma_field_split(tf);
        lemma_parse_wf(b.skip(step));
        let ats = spec_parse(b)->Some_0;
        let rest = spec_parse(b.skip(step))->Some_0;
        assert forall|i: int| 0 <= i < ats.len() implies (#[trigger] ats[i]).wf() by {
            if i > 0 {
                assert(ats[i] == rest[i - 1]);
            }
        }
    }
}

/// Decoding any accepted byte span and re-encoding the tree yields the
/// canonical form of that span — the same bytes up to padding — and that
/// form decodes back to the same tree.
pub proof fn lemma_reencode_of_parse(b: Seq<u8>)
    requires
        spec_parse(b) is Some,
    ensures
        canonical(spec_encode(spec_parse(b)->Some_0)),
        spec_parse(spec_encode(spec_parse(b)->Some_0)) == spec_parse(b),
{
    lemma_parse_wf(b);
    lemma_parse_of_encode(spec_parse(b)->Some_0);
}

/// Encoding any well-formed attribute tree yields a canonical byte span
/// that decodes back to exactly that tree: the encoder loses nothing.
pub proof fn lemma_parse_of_encode(ats: Seq<AttrV>)
    requires
        tree_wf(ats),
    ensures
        canonical(spec_encode(ats)),
        spec_parse(spec_encode(ats)) == Some(ats),
    decreases ats.len(),
{
    let b = spec_encode(ats);
    if ats.len() == 0 {
        assert(ats =~= Seq::<AttrV>::empty());
    } else {
        let a0 = ats[0];
        assert(a0.wf());
        let rest = ats.drop_first();
        assert forall|i: int| 0 <= i < rest.len() implies (#[trigger] rest[i]).wf() by {
            assert(rest[i] == ats[i + 1]);
        }
        lemma_parse_of_encode(rest);
        let len = a0.payload.len() as int + 4;
        let tf = type_field(a0);
        lemma_field_join(a0);
        let chunk = encode_one(a0);
        assert(chunk.len() == align4(len));
        assert(b == chunk + spec_encode(rest));
        assert(0 <= len % 0x100 < 0x100) by {
            vstd::arithmetic::div_mod::lemma_mod_bound(len, 0x100);
        }
        assert(0 <= tf % 0x100 < 0x100) by {
            vstd::arithmetic::div_mod::lemma_mod_bound(tf, 0x100);
        }
        vstd::arithmetic::div_mod::lemma_fundamental_div_mod(len, 0x100);
        vstd::arithmetic::div_mod::lemma_fundamental_div_mod(tf, 0x100);
        assert(b[0] + 0x100 * b[1] == len);
        assert(b[2] + 0x100 * b[3] == tf);
        let step = align4(len);
        assert(step <= b.len());
        assert(b.skip(step) =~= spec_encode(rest));
        let head = AttrV {
            tag: field_tag(tf),
            nested: field_nested(tf),
            network_order: field_network(tf),
            payload: b.subrange(4, len),
        };
        assert(head.payload =~= a0.payload);
        assert(head == a0);
        assert(forall|i: int| len <= i < align4(len) ==> b[i] == 0);
        assert(canonical(b));
        assert(spec_parse(b) == Some(seq![a0] + spec_parse(spec_encode(rest))->Some_0));
        assert(seq![a0] + rest =~= ats);
    }
}

} // verus!
