//! Little-endian integers and the field-level layout of the wire format.
use vstd::prelude::*;

verus! {

/// `256` raised to the power `w`.
pub open spec fn pow256(w: nat) -> nat
    decreases w,
{
    if w == 0 {
        1
    } else {
        256 * pow256((w - 1) as nat)
    }
}

/// The `w` low bytes of `v`, least significant first.
pub open spec fn le_bytes(v: nat, w: nat) -> Seq<u8>
    decreases w,
{
    if w == 0 {
        Seq::empty()
    } else {
        seq![(v % 256) as u8] + le_bytes(v / 256, (w - 1) as nat)
    }
}

/// The number that the bytes `s` spell, least significant first.
pub open spec fn le_value(s: Seq<u8>) -> nat
    decreases s.len(),
{
    if s.len() == 0 {
        0
    } else {
        s[0] as nat + 256 * le_value(s.drop_first())
    }
}

pub proof fn lemma_pow256_positive(w: nat)
    ensures
        pow256(w) >= 1,
    decreases w,
{
    if w > 0 {
        lemma_pow256_positive((w - 1) as nat);
    }
}

pub proof fn lemma_pow256_monotonic(a: nat, b: nat)
    requires
        a <= b,
    ensures
        pow256(a) <= pow256(b),
    decreases b,
{
    if a < b {
        lemma_pow256_monotonic(a, (b - 1) as nat);
        lemma_pow256_positive((b - 1) as nat);
    }
}

pub proof fn lemma_pow256_values()
    ensures
        pow256(1) == 0x100,
        pow256(2) == 0x1_0000,
        pow256(4) == 0x1_0000_0000,
        pow256(8) == 0x1_0000_0000_0000_0000,
{
    reveal_with_fuel(pow256, 9);
}

pub proof fn lemma_le_bytes_len(v: nat, w: nat)
    ensures
        le_bytes(v, w).len() == w,
    decreases w,
{
    if w > 0 {
        lemma_le_bytes_len(v / 256, (w - 1) as nat);
    }
}

pub proof fn lemma_le_value_bound(s: Seq<u8>)
    ensures
        le_value(s) < pow256(s.len()),
    decreases s.len(),
{
    if s.len() > 0 {
        let t = s.drop_first();
        lemma_le_value_bound(t);
        let x = le_value(t);
        let p = pow256(t.len());
        assert(s.len() - 1 == t.len());
        assert(pow256(s.len()) == 256 * p);
        let b = s[0] as nat;
        assert(b + 256 * x < 256 * p) by (nonlinear_arith)
            requires
                b < 256,
                x < p,
        ;
    }
}

/// Reading back what `le_bytes` wrote gives the number, when it fits in the width.
pub proof fn lemma_le_value_of_bytes(v: nat, w: nat)
    requires
        v < pow256(w),
    ensures
        le_value(le_bytes(v, w)) == v,
    decreases w,
{
    if w > 0 {
        let p = pow256((w - 1) as nat);
        assert(v / 256 < p) by (nonlinear_arith)
            requires
                v < 256 * p,
        ;
        lemma_le_value_of_bytes(v / 256, (w - 1) as nat);
        let s = le_bytes(v, w);
        assert(s.drop_first() =~= le_bytes(v / 256, (w - 1) as nat));
        assert(v == (v % 256) + 256 * (v / 256)) by (nonlinear_arith);
    }
}

/// Writing back the number that bytes spell gives the same bytes.
pub proof fn lemma_le_bytes_of_value(s: Seq<u8>)
    ensures
        le_bytes(le_value(s), s.len()) == s,
    decreases s.len(),
{
    if s.len() > 0 {
        let t = s.drop_first();
        lemma_le_bytes_of_value(t);
        let x = le_value(t);
        let b = s[0] as nat;
        let v = b + 256 * x;
        assert(v % 256 == b && v / 256 == x) by (nonlinear_arith)
            requires
                v == b + 256 * x,
                b < 256,
        ;
        assert(le_bytes(v, s.len()) =~= seq![s[0]] + t);
        assert(seq![s[0]] + t =~= s);
    }
}

pub proof fn lemma_le_value_split(s: Seq<u8>, i: int)
    requires
        0 <= i < s.len(),
    ensures
        le_value(s.subrange(i, s.len() as int)) == s[i] as nat + 256 * le_value(
            s.subrange(i + 1, s.len() as int),
        ),
{
    let t = s.subrange(i, s.len() as int);
    assert(t.drop_first() =~= s.subrange(i + 1, s.len() as int));
}

/// Appends the `w` low bytes of `v`, least significant first.
pub fn put_le(out: &mut Vec<u8>, v: u64, w: usize)
    ensures
        final(out)@ == old(out)@ + le_bytes(v as nat, w as nat),
{
    let mut x: u64 = v;
    let mut i: usize = 0;
    while i < w
        invariant
            i <= w,
            out@ + le_bytes(x as nat, (w - i) as nat) == old(out)@ + le_bytes(v as nat, w as nat),
        decreases w - i,
    {
        let ghost before = out@;
        assert(le_bytes(x as nat, (w - i) as nat) == seq![(x as nat % 256) as u8] + le_bytes(
            x as nat / 256,
            (w - i - 1) as nat,
        ));
        out.push((x % 256) as u8);
        assert(out@ + le_bytes((x / 256) as nat, (w - i - 1) as nat) =~= before + le_bytes(
            x as nat,
            (w - i) as nat,
        ));
        x = x / 256;
        i = i + 1;
    }
    assert(out@ + le_bytes(x as nat, 0) =~= out@);
}

/// Reads `w` bytes at `pos` as a little-endian number.
pub fn get_le(b: &[u8], pos: usize, w: usize) -> (r: u64)
    requires
        w <= 8,
        pos + w <= b@.len(),
    ensures
        r as nat == le_value(b@.subrange(pos as int, pos + w)),
{
    let ghost s = b@.subrange(pos as int, pos + w);
    let n = b.len();
    let mut acc: u64 = 0;
    let mut i: usize = w;
    proof {
        lemma_pow256_positive(0);
        assert(s.subrange(w as int, w as int) =~= Seq::<u8>::empty());
    }
    while i > 0
        invariant
            i <= w <= 8,
            pos + w <= b@.len(),
            n == b@.len(),
            s == b@.subrange(pos as int, pos + w),
            acc as nat == le_value(s.subrange(i as int, w as int)),
            acc < pow256((w - i) as nat),
        decreases i,
    {
        i = i - 1;
        let byte = b[pos + i];
        proof {
            assert(s.len() == w);
            lemma_le_value_split(s, i as int);
            assert(s[i as int] == byte);
            let p = pow256((w - i - 1) as nat);
            lemma_pow256_monotonic((w - i) as nat, 8);
            lemma_pow256_values();
            assert(pow256((w - i) as nat) == 256 * p);
            let a = acc as nat;
            assert(byte as nat + 256 * a < 256 * p) by (nonlinear_arith)
                requires
                    a < p,
                    byte < 256,
            ;
        }
        acc = acc * 256 + byte as u64;
    }
    assert(s.subrange(0, w as int) =~= s);
    acc
}

/// A signed number survives the trip through its unsigned bit pattern.
pub broadcast proof fn lemma_i32_bits(x: i32)
    ensures
        #[trigger] ((x as u32) as i32) == x,
{
    assert(((x as u32) as i32) == x) by (bit_vector);
}

pub broadcast proof fn lemma_u32_bits(x: u32)
    ensures
        #[trigger] ((x as i32) as u32) == x,
{
    assert(((x as i32) as u32) == x) by (bit_vector);
}

pub broadcast proof fn lemma_i64_bits(x: i64)
    ensures
        #[trigger] ((x as u64) as i64) == x,
{
    assert(((x as u64) as i64) == x) by (bit_vector);
}

pub broadcast proof fn lemma_u64_bits(x: u64)
    ensures
        #[trigger] ((x as i64) as u64) == x,
{
    assert(((x as i64) as u64) == x) by (bit_vector);
}

/// One value of the wire format, as the codec handles it.
pub enum Field {
    U8(u8),
    U16(u16),
    U32(u32),
    U64(u64),
    Addr([u8; 16]),
    Text(Vec<u8>),
}

/// What the decoder expects at a place of the wire format; `Text` carries its bound.
#[derive(Clone, Copy, Debug, PartialEq, Eq, Structural)]
pub enum FieldKind {
    U8,
    U16,
    U32,
    U64,
    Addr,
    Text(usize),
}

/// The mathematical value of a `Field`.
pub enum FieldValue {
    U8(u8),
    U16(u16),
    U32(u32),
    U64(u64),
    Addr(Seq<u8>),
    Text(Seq<u8>),
}

impl View for Field {
    type V = FieldValue;

    open spec fn view(&self) -> FieldValue {
        match self {
            Field::U8(x) => FieldValue::U8(*x),
            Field::U16(x) => FieldValue::U16(*x),
            Field::U32(x) => FieldValue::U32(*x),
            Field::U64(x) => FieldValue::U64(*x),
            Field::Addr(a) => FieldValue::Addr(a@),
            Field::Text(t) => FieldValue::Text(t@),
        }
    }
}

pub open spec fn views(fs: Seq<Field>) -> Seq<FieldValue> {
    fs.map_values(|f: Field| f@)
}

/// Numbers are fixed-width little-endian; a text is a four-byte length, then its bytes.
pub open spec fn field_bytes(f: FieldValue) -> Seq<u8> {
    match f {
        FieldValue::U8(x) => seq![x],
        FieldValue::U16(x) => le_bytes(x as nat, 2),
        FieldValue::U32(x) => le_bytes(x as nat, 4),
        FieldValue::U64(x) => le_bytes(x as nat, 8),
        FieldValue::Addr(a) => a,
        FieldValue::Text(t) => le_bytes(t.len(), 4) + t,
    }
}

pub open spec fn fields_bytes(fs: Seq<FieldValue>) -> Seq<u8>
    decreases fs.len(),
{
    if fs.len() == 0 {
        Seq::empty()
    } else {
        field_bytes(fs[0]) + fields_bytes(fs.drop_first())
    }
}

/// The value `f` may stand where `k` is expected.
pub open spec fn fits(k: FieldKind, f: FieldValue) -> bool {
    match (k, f) {
        (FieldKind::U8, FieldValue::U8(_)) => true,
        (FieldKind::U16, FieldValue::U16(_)) => true,
        (FieldKind::U32, FieldValue::U32(_)) => true,
        (FieldKind::U64, FieldValue::U64(_)) => true,
        (FieldKind::Addr, FieldValue::Addr(a)) => a.len() == 16,
        (FieldKind::Text(n), FieldValue::Text(t)) => t.len() <= n && n <= u32::MAX,
        _ => false,
    }
}

pub open spec fn all_fit(ks: Seq<FieldKind>, fs: Seq<FieldValue>) -> bool {
    &&& ks.len() == fs.len()
    &&& forall|i: int| 0 <= i < ks.len() ==> fits(#[trigger] ks[i], fs[i])
}

/// Reads one value of kind `k` at the start of `s`: the value and the number of bytes used.
pub open spec fn parse_field(k: FieldKind, s: Seq<u8>) -> Option<(FieldValue, nat)> {
    match k {
        FieldKind::U8 => if s.len() >= 1 {
            Some((FieldValue::U8(s[0]), 1))
        } else {
            None
        },
        FieldKind::U16 => if s.len() >= 2 {
            Some((FieldValue::U16(le_value(s.take(2)) as u16), 2))
        } else {
            None
        },
        FieldKind::U32 => if s.len() >= 4 {
            Some((FieldValue::U32(le_value(s.take(4)) as u32), 4))
        } else {
            None
        },
        FieldKind::U64 => if s.len() >= 8 {
            Some((FieldValue::U64(le_value(s.take(8)) as u64), 8))
        } else {
            None
        },
        FieldKind::Addr => if s.len() >= 16 {
            Some((FieldValue::Addr(s.take(16)), 16))
        } else {
            None
        },
        FieldKind::Text(n) => if s.len() >= 4 {
            let l = le_value(s.take(4));
            if l <= n && n <= u32::MAX && 4 + l <= s.len() {
                Some((FieldValue::Text(s.subrange(4, 4 + l as int)), (4 + l) as nat))
            } else {
                None
            }
        } else {
            None
        },
    }
}

/// Reads values of the kinds `ks`, one after the other, at the start of `s`.
pub open spec fn parse_fields(ks: Seq<FieldKind>, s: Seq<u8>) -> Option<(Seq<FieldValue>, nat)>
    decreases ks.len(),
{
    if ks.len() == 0 {
        Some((Seq::empty(), 0))
    } else {
        match parse_field(ks[0], s) {
            Some((f, n)) => match parse_fields(ks.drop_first(), s.skip(n as int)) {
                Some((fs, m)) => Some((seq![f] + fs, n + m)),
                None => None,
            },
            None => None,
        }
    }
}

pub proof fn lemma_parse_field_sound(k: FieldKind, s: Seq<u8>)
    requires
        parse_field(k, s) is Some,
    ensures
        ({
            let (f, n) = parse_field(k, s)->0;
            &&& fits(k, f)
            &&& n <= s.len()
            &&& s.take(n as int) == field_bytes(f)
        }),
{
    lemma_pow256_values();
    match k {
        FieldKind::U8 => {
            assert(s.take(1) =~= seq![s[0]]);
        },
        FieldKind::U16 => {
            lemma_le_value_bound(s.take(2));
            lemma_le_bytes_of_value(s.take(2));
        },
        FieldKind::U32 => {
            lemma_le_value_bound(s.take(4));
            lemma_le_bytes_of_value(s.take(4));
        },
        FieldKind::U64 => {
            lemma_le_value_bound(s.take(8));
            lemma_le_bytes_of_value(s.take(8));
        },
        FieldKind::Addr => {},
        FieldKind::Text(n) => {
            let l = le_value(s.take(4));
            lemma_le_bytes_of_value(s.take(4));
            let t = s.subrange(4, 4 + l as int);
            assert(s.take(4 + l as int) =~= s.take(4) + t);
        },
    }
}

pub proof fn lemma_parse_field_complete(k: FieldKind, f: FieldValue, rest: Seq<u8>)
    requires
        fits(k, f),
    ensures
        parse_field(k, field_bytes(f) + rest) == Some((f, field_bytes(f).len())),
{
    lemma_pow256_values();
    let s = field_bytes(f) + rest;
    match f {
        FieldValue::U8(x) => {},
        FieldValue::U16(x) => {
            lemma_le_bytes_len(x as nat, 2);
            assert(s.take(2) =~= le_bytes(x as nat, 2));
            lemma_le_value_of_bytes(x as nat, 2);
        },
        FieldValue::U32(x) => {
            lemma_le_bytes_len(x as nat, 4);
            assert(s.take(4) =~= le_bytes(x as nat, 4));
            lemma_le_value_of_bytes(x as nat, 4);
        },
        FieldValue::U64(x) => {
            lemma_le_bytes_len(x as nat, 8);
            assert(s.take(8) =~= le_bytes(x as nat, 8));
            lemma_le_value_of_bytes(x as nat, 8);
        },
        FieldValue::Addr(a) => {
            assert(s.take(16) =~= a);
        },
        FieldValue::Text(t) => {
            lemma_le_bytes_len(t.len(), 4);
            assert(s.take(4) =~= le_bytes(t.len(), 4));
            lemma_le_value_of_bytes(t.len(), 4);
            assert(s.subrange(4, 4 + t.len() as int) =~= t);
        },
    }
}

pub proof fn lemma_parse_fields_sound(ks: Seq<FieldKind>, s: Seq<u8>)
    requires
        parse_fields(ks, s) is Some,
    ensures
        ({
            let (fs, n) = parse_fields(ks, s)->0;
            &&& all_fit(ks, fs)
            &&& n <= s.len()
            &&& s.take(n as int) == fields_bytes(fs)
        }),
    decreases ks.len(),
{
    if ks.len() > 0 {
        let (f, n) = parse_field(ks[0], s)->0;
        lemma_parse_field_sound(ks[0], s);
        let t = s.skip(n as int);
        lemma_parse_fields_sound(ks.drop_first(), t);
        let (fs, m) = parse_fields(ks.drop_first(), t)->0;
        let all = seq![f] + fs;
        assert(all.drop_first() =~= fs);
        assert forall|i: int| 0 <= i < ks.len() implies fits(#[trigger] ks[i], all[i]) by {
            if i > 0 {
                assert(ks[i] == ks.drop_first()[i - 1]);
            }
        }
        assert(s.take((n + m) as int) =~= s.take(n as int) + t.take(m as int));
    }
}

pub proof fn lemma_parse_fields_complete(ks: Seq<FieldKind>, fs: Seq<FieldValue>, rest: Seq<u8>)
    requires
        all_fit(ks, fs),
    ensures
        parse_fields(ks, fields_bytes(fs) + rest) == Some((fs, fields_bytes(fs).len())),
    decreases ks.len(),
{
    if ks.len() == 0 {
        assert(fs =~= Seq::<FieldValue>::empty());
    } else {
        let s = fields_bytes(fs) + rest;
        let tail = fields_bytes(fs.drop_first()) + rest;
        assert(s =~= field_bytes(fs[0]) + tail);
        assert(fits(ks[0], fs[0]));
        lemma_parse_field_complete(ks[0], fs[0], tail);
        let n = field_bytes(fs[0]).len();
        assert(s.skip(n as int) =~= tail);
        assert forall|i: int| 0 <= i < ks.drop_first().len() implies fits(
            #[trigger] ks.drop_first()[i],
            fs.drop_first()[i],
        ) by {
            assert(fits(ks[i + 1], fs[i + 1]));
        }
        lemma_parse_fields_complete(ks.drop_first(), fs.drop_first(), rest);
        assert(seq![fs[0]] + fs.drop_first() =~= fs);
    }
}

pub proof fn lemma_fields_bytes_push(fs: Seq<FieldValue>, f: FieldValue)
    ensures
        fields_bytes(fs.push(f)) == fields_bytes(fs) + field_bytes(f),
    decreases fs.len(),
{
    if fs.len() == 0 {
        assert(fs.push(f).drop_first() =~= Seq::<FieldValue>::empty());
        assert(fields_bytes(Seq::<FieldValue>::empty()) == Seq::<u8>::empty());
        assert(fields_bytes(fs.push(f)) =~= field_bytes(f));
    } else {
        assert(fs.push(f).drop_first() =~= fs.drop_first().push(f));
        lemma_fields_bytes_push(fs.drop_first(), f);
        assert(fields_bytes(fs.push(f)) =~= fields_bytes(fs) + field_bytes(f));
    }
}

/// The most bytes that a value of kind `k` takes on the wire.
pub open spec fn max_field_len(k: FieldKind) -> nat {
    match k {
        FieldKind::U8 => 1,
        FieldKind::U16 => 2,
        FieldKind::U32 => 4,
        FieldKind::U64 => 8,
        FieldKind::Addr => 16,
        FieldKind::Text(n) => (4 + n) as nat,
    }
}

pub open spec fn max_fields_len(ks: Seq<FieldKind>) -> nat
    decreases ks.len(),
{
    if ks.len() == 0 {
        0
    } else {
        max_field_len(ks[0]) + max_fields_len(ks.drop_first())
    }
}

pub proof fn lemma_fields_len_bound(ks: Seq<FieldKind>, fs: Seq<FieldValue>)
    requires
        all_fit(ks, fs),
    ensures
        fields_bytes(fs).len() <= max_fields_len(ks),
    decreases ks.len(),
{
    if ks.len() > 0 {
        assert(fits(ks[0], fs[0]));
        match fs[0] {
            FieldValue::U16(x) => lemma_le_bytes_len(x as nat, 2),
            FieldValue::U32(x) => lemma_le_bytes_len(x as nat, 4),
            FieldValue::U64(x) => lemma_le_bytes_len(x as nat, 8),
            FieldValue::Text(t) => lemma_le_bytes_len(t.len(), 4),
            _ => {},
        }
        assert forall|i: int| 0 <= i < ks.drop_first().len() implies fits(
            #[trigger] ks.drop_first()[i],
            fs.drop_first()[i],
        ) by {
            assert(fits(ks[i + 1], fs[i + 1]));
        }
        lemma_fields_len_bound(ks.drop_first(), fs.drop_first());
    }
}

/// Appends the wire form of one value.
pub fn put_field(out: &mut Vec<u8>, f: &Field)
    ensures
        final(out)@ == old(out)@ + field_bytes(f@),
{
    match f {
        Field::U8(x) => {
            out.push(*x);
        },
        Field::U16(x) => {
            put_le(out, *x as u64, 2);
        },
        Field::U32(x) => {
            put_le(out, *x as u64, 4);
        },
        Field::U64(x) => {
            put_le(out, *x, 8);
        },
        Field::Addr(a) => {
            let ghost before = out@;
            let mut i: usize = 0;
            while i < 16
                invariant
                    i <= 16,
                    out@ == before + a@.take(i as int),
                decreases 16 - i,
            {
                out.push(a[i]);
                assert(a@.take(i + 1) =~= a@.take(i as int).push(a@[i as int]));
                i = i + 1;
            }
            assert(a@.take(16) =~= a@);
        },
        Field::Text(t) => {
            put_le(out, t.len() as u64, 4);
            let ghost before = out@;
            let mut i: usize = 0;
            while i < t.len()
                invariant
                    i <= t@.len(),
                    out@ == before + t@.take(i as int),
                decreases t@.len() - i,
            {
                out.push(t[i]);
                assert(t@.take(i + 1) =~= t@.take(i as int).push(t@[i as int]));
                i = i + 1;
            }
            assert(t@.take(t@.len() as int) =~= t@);
            assert(final(out)@ =~= old(out)@ + field_bytes(f@));
        },
    }
}

/// Appends the wire form of each value, in order.
pub fn put_fields(out: &mut Vec<u8>, fs: &Vec<Field>)
    ensures
        final(out)@ == old(out)@ + fields_bytes(views(fs@)),
{
    let mut i: usize = 0;
    assert(views(fs@).take(0) =~= Seq::<FieldValue>::empty());
    while i < fs.len()
        invariant
            i <= fs@.len(),
            out@ == old(out)@ + fields_bytes(views(fs@).take(i as int)),
        decreases fs@.len() - i,
    {
        let ghost before = out@;
        put_field(out, &fs[i]);
        proof {
            assert(views(fs@).take(i + 1) =~= views(fs@).take(i as int).push(fs@[i as int]@));
            lemma_fields_bytes_push(views(fs@).take(i as int), fs@[i as int]@);
        }
        i = i + 1;
    }
    assert(views(fs@).take(fs@.len() as int) =~= views(fs@));
}

/// Reads one value of kind `k` at `pos`: the value and the position after it.
pub fn take_field(b: &[u8], pos: usize, k: FieldKind) -> (r: Option<(Field, usize)>)
    requires
        pos <= b@.len(),
    ensures
        match parse_field(k, b@.skip(pos as int)) {
            Some((f, n)) => match r {
                Some((g, q)) => g@ == f && q == pos + n,
                None => false,
            },
            None => r is None,
        },
{
    let ghost s = b@.skip(pos as int);
    let blen = b.len();
    let avail = blen - pos;
    proof {
        lemma_pow256_values();
    }
    match k {
        FieldKind::U8 => {
            if avail < 1 {
                return None;
            }
            Some((Field::U8(b[pos]), pos + 1))
        },
        FieldKind::U16 => {
            if avail < 2 {
                return None;
            }
            let v = get_le(b, pos, 2);
            proof {
                assert(b@.subrange(pos as int, pos + 2) =~= s.take(2));
                lemma_le_value_bound(s.take(2));
            }
            Some((Field::U16(v as u16), pos + 2))
        },
        FieldKind::U32 => {
            if avail < 4 {
                return None;
            }
            let v = get_le(b, pos, 4);
            proof {
                assert(b@.subrange(pos as int, pos + 4) =~= s.take(4));
                lemma_le_value_bound(s.take(4));
            }
            Some((Field::U32(v as u32), pos + 4))
        },
        FieldKind::U64 => {
            if avail < 8 {
                return None;
            }
            let v = get_le(b, pos, 8);
            proof {
                assert(b@.subrange(pos as int, pos + 8) =~= s.take(8));
            }
            Some((Field::U64(v), pos + 8))
        },
        FieldKind::Addr => {
            if avail < 16 {
                return None;
            }
            let mut a = [0u8; 16];
            let mut i: usize = 0;
            while i < 16
                invariant
                    i <= 16,
                    pos + 16 <= b@.len(),
                    blen == b@.len(),
                    s == b@.skip(pos as int),
                    forall|j: int| 0 <= j < i ==> a@[j] == s[j],
                decreases 16 - i,
            {
                a[i] = b[pos + i];
                i = i + 1;
            }
            assert(a@ =~= s.take(16));
            Some((Field::Addr(a), pos + 16))
        },
        FieldKind::Text(n) => {
            if avail < 4 {
                return None;
            }
            let l = get_le(b, pos, 4);
            proof {
                assert(b@.subrange(pos as int, pos + 4) =~= s.take(4));
            }
            if l > n as u64 || n as u64 > 0xffff_ffffu64 || l > (avail - 4) as u64 {
                return None;
            }
            let len = l as usize;
            let start = pos + 4;
            let mut t: Vec<u8> = Vec::new();
            let mut i: usize = 0;
            while i < len
                invariant
                    i <= len,
                    start + len <= b@.len(),
                    blen == b@.len(),
                    t@ == b@.subrange(start as int, start + i),
                decreases len - i,
            {
                t.push(b[start + i]);
                assert(b@.subrange(start as int, start + i + 1) =~= t@);
                i = i + 1;
            }
            assert(t@ =~= s.subrange(4, 4 + len));
            Some((Field::Text(t), start + len))
        },
    }
}

/// Reads values of the kinds `ks`, one after the other, at `pos`.
pub fn take_fields(b: &[u8], pos: usize, ks: &Vec<FieldKind>) -> (r: Option<(Vec<Field>, usize)>)
    requires
        pos <= b@.len(),
    ensures
        match parse_fields(ks@, b@.skip(pos as int)) {
            Some((fs, n)) => match r {
                Some((gs, q)) => views(gs@) == fs && q == pos + n,
                None => false,
            },
            None => r is None,
        },
        match r {
            Some((_, q)) => pos <= q <= b@.len(),
            None => true,
        },
{
    let mut out: Vec<Field> = Vec::new();
    let mut p: usize = pos;
    let mut i: usize = 0;
    assert(ks@.skip(0) =~= ks@);
    assert(views(out@) =~= Seq::<FieldValue>::empty());
    while i < ks.len()
        invariant
            i <= ks@.len(),
            pos <= p <= b@.len(),
            parse_fields(ks@, b@.skip(pos as int)) == match parse_fields(
                ks@.skip(i as int),
                b@.skip(p as int),
            ) {
                Some((fs, m)) => Some((views(out@) + fs, ((p - pos) + m) as nat)),
                None => None::<(Seq<FieldValue>, nat)>,
            },
        decreases ks@.len() - i,
    {
        let ghost rest = ks@.skip(i as int);
        assert(rest[0] == ks@[i as int]);
        assert(rest.drop_first() =~= ks@.skip(i + 1));
        match take_field(b, p, ks[i]) {
            Some((f, q)) => {
                proof {
                    lemma_parse_field_sound(ks@[i as int], b@.skip(p as int));
                    assert(b@.skip(p as int).skip(q - p) =~= b@.skip(q as int));
                    assert(views(out@.push(f)) =~= views(out@).push(f@));
                    match parse_fields(ks@.skip(i + 1), b@.skip(q as int)) {
                        Some((fs, m)) => {
                            assert(views(out@).push(f@) + fs =~= views(out@) + (seq![f@] + fs));
                        },
                        None => {},
                    }
                }
                out.push(f);
                p = q;
            },
            None => {
                return None;
            },
        }
        i = i + 1;
    }
    assert(ks@.skip(i as int) =~= Seq::<FieldKind>::empty());
    assert(views(out@) + Seq::<FieldValue>::empty() =~= views(out@));
    Some((out, p))
}

} // verus!
