//! The byte layout of vertex data: how values are turned into the bytes a buffer stores,
//! how many bytes one value takes (its stride), and where each field of a record begins.
use vstd::prelude::*;

verus! {

/// A count of bytes.
#[derive(Clone, Copy, Debug, PartialEq, Eq, PartialOrd, Ord, Hash, Structural)]
pub struct Bytes(pub usize);

/// The order in which the bytes of a multi-byte integer are laid out.
#[derive(Clone, Copy, Debug, PartialEq, Eq, Hash, Structural)]
pub enum ByteOrder {
    Little,
    Big,
}

/// The lowest `n` bytes of `x`, least significant first.
pub open spec fn le_bytes(x: nat, n: nat) -> Seq<u8>
    decreases n,
{
    if n == 0 {
        Seq::empty()
    } else {
        seq![(x % 256) as u8] + le_bytes(x / 256, (n - 1) as nat)
    }
}

/// The lowest `n` bytes of `x`, in the given order.
pub open spec fn int_bytes(x: nat, n: nat, order: ByteOrder) -> Seq<u8> {
    match order {
        ByteOrder::Little => le_bytes(x, n),
        ByteOrder::Big => le_bytes(x, n).reverse(),
    }
}

/// Relies on `u16::to_ne_bytes`: the bytes of 1 are laid out in the machine's byte order.
#[verifier::external_body]
fn one_in_native_order() -> (r: [u8; 2])
    ensures
        r@ == seq![1u8, 0u8] || r@ == seq![0u8, 1u8],
{
    1u16.to_ne_bytes()
}

/// The byte order of the machine this runs on.
pub fn native_byte_order() -> (r: ByteOrder) {
    let probe = one_in_native_order();
    if probe[0] == 1 {
        ByteOrder::Little
    } else {
        ByteOrder::Big
    }
}

/// The lowest `width` bytes of `value`, in `order`.
pub fn encode_int(value: u128, width: usize, order: ByteOrder) -> (r: Vec<u8>)
    ensures
        r@ == int_bytes(value as nat, width as nat, order),
{
    let mut little: Vec<u8> = Vec::new();
    let mut rest: u128 = value;
    let mut i: usize = 0;
    while i < width
        invariant
            i <= width,
            le_bytes(value as nat, width as nat) == little@ + le_bytes(rest as nat, (width - i) as nat),
        decreases width - i,
    {
        let b = (rest % 256) as u8;
        proof {
            let tail = le_bytes(rest as nat / 256, (width - i - 1) as nat);
            assert(le_bytes(rest as nat, (width - i) as nat) == seq![b] + tail);
            assert(little@ + (seq![b] + tail) =~= little@.push(b) + tail);
        }
        little.push(b);
        rest = rest / 256;
        i = i + 1;
    }
    assert(little@ =~= little@ + le_bytes(rest as nat, 0));
    match order {
        ByteOrder::Little => little,
        ByteOrder::Big => {
            let mut big: Vec<u8> = Vec::new();
            let mut j: usize = little.len();
            while j > 0
                invariant
                    j <= little.len(),
                    big@ =~= little@.subrange(j as int, little.len() as int).reverse(),
                decreases j,
            {
                j = j - 1;
                big.push(little[j]);
                proof {
                    let s = little@.subrange(j as int, little.len() as int);
                    assert(s =~= seq![little@[j as int]] + little@.subrange(j + 1, little.len() as int));
                    assert(s.reverse() =~= little@.subrange(j + 1, little.len() as int).reverse().push(little@[j as int]));
                }
            }
            assert(little@.subrange(0, little.len() as int) =~= little@);
            big
        },
    }
}

/// The total of the given strides.
pub open spec fn sum_strides(strides: Seq<Bytes>) -> nat
    decreases strides.len(),
{
    if strides.len() == 0 {
        0
    } else {
        sum_strides(strides.drop_last()) + strides.last().0 as nat
    }
}

proof fn lemma_prefix_sums_grow(strides: Seq<Bytes>, i: int, j: int)
    requires
        0 <= i <= j <= strides.len(),
    ensures
        sum_strides(strides.subrange(0, i)) <= sum_strides(strides.subrange(0, j)),
    decreases j - i,
{
    if i < j {
        lemma_prefix_sums_grow(strides, i, j - 1);
        assert(strides.subrange(0, j).drop_last() =~= strides.subrange(0, j - 1));
    }
}

/// The sum of the strides of the fields before `field_index`, or the whole record's
/// stride past its last field.
fn prefix_stride(field_strides: &Vec<Bytes>, field_index: usize) -> (r: usize)
    requires
        field_index <= field_strides.len(),
        sum_strides(field_strides@) <= usize::MAX,
    ensures
        r == sum_strides(field_strides@.subrange(0, field_index as int)),
{
    let mut total: usize = 0;
    let mut i: usize = 0;
    while i < field_index
        invariant
            i <= field_index <= field_strides.len(),
            sum_strides(field_strides@) <= usize::MAX,
            total == sum_strides(field_strides@.subrange(0, i as int)),
        decreases field_index - i,
    {
        proof {
            lemma_prefix_sums_grow(field_strides@, i + 1, field_strides.len() as int);
            assert(field_strides@.subrange(0, field_strides.len() as int) =~= field_strides@);
            assert(field_strides@.subrange(0, i + 1).drop_last() =~= field_strides@.subrange(0, i as int));
        }
        total = total + field_strides[i].0;
        i = i + 1;
    }
    total
}

/// The stride of a record laid out field after field with no padding: the sum of the
/// strides of its fields.
pub fn struct_stride(field_strides: &Vec<Bytes>) -> (r: Bytes)
    requires
        sum_strides(field_strides@) <= usize::MAX,
    ensures
        r.0 == sum_strides(field_strides@),
{
    let total = prefix_stride(field_strides, field_strides.len());
    assert(field_strides@.subrange(0, field_strides.len() as int) =~= field_strides@);
    Bytes(total)
}

/// Where the field `field_index` of a record laid out field after field begins: after the
/// fields before it. A record has no field at or past its number of fields.
pub fn struct_field_offset(field_strides: &Vec<Bytes>, field_index: usize) -> (r: Option<Bytes>)
    requires
        sum_strides(field_strides@) <= usize::MAX,
    ensures
        field_index < field_strides.len() ==> r == Some(
            Bytes(sum_strides(field_strides@.subrange(0, field_index as int)) as usize),
        ),
        field_index >= field_strides.len() ==> r is None,
{
    if field_index < field_strides.len() {
        Some(Bytes(prefix_stride(field_strides, field_index)))
    } else {
        None
    }
}

/// The bytes of a record laid out field after field with no padding: the bytes of each field
/// in turn.
pub fn struct_bytes(field_bytes: Vec<Vec<u8>>) -> (r: Vec<u8>)
    ensures
        r@ == field_bytes@.fold_left(Seq::<u8>::empty(), |acc: Seq<u8>, f: Vec<u8>| acc + f@),
{
    let ghost fields = field_bytes@;
    let mut bytes: Vec<u8> = Vec::new();
    let mut i: usize = 0;
    while i < field_bytes.len()
        invariant
            i <= field_bytes@.len(),
            fields == field_bytes@,
            bytes@ == fields.subrange(0, i as int).fold_left(Seq::<u8>::empty(), |acc: Seq<u8>, f: Vec<u8>| acc + f@),
        decreases field_bytes.len() - i,
    {
        let mut part = field_bytes[i].clone();
        bytes.append(&mut part);
        proof {
            let next = fields.subrange(0, i + 1);
            assert(next.drop_last() =~= fields.subrange(0, i as int));
        }
        i = i + 1;
    }
    assert(fields.subrange(0, fields.len() as int) =~= fields);
    bytes
}

/// Values that a buffer can store: each knows its bytes, in either byte order, and how
/// many bytes it takes.
pub trait ToByteVec: Sized {
    /// The bytes of this value, multi-byte integers laid out in `order`.
    spec fn spec_bytes(&self, order: ByteOrder) -> Seq<u8>;

    /// The number of bytes this value takes in a buffer.
    spec fn spec_stride(&self) -> nat;

    /// Where the field `field_index` of a record begins, in bytes, if it has such a field.
    spec fn spec_field_offset(&self, field_index: nat) -> Option<nat>;

    fn to_bytes_in(self, order: ByteOrder) -> (r: Vec<u8>)
        ensures
            r@ == self.spec_bytes(order),
    ;

    fn stride(&self) -> (r: Bytes)
        requires
            self.spec_stride() <= usize::MAX,
        ensures
            r.0 == self.spec_stride(),
    ;

    fn field_offset(&self, field_index: usize) -> (r: Option<Bytes>)
        ensures
            match r {
                Some(b) => self.spec_field_offset(field_index as nat) == Some(b.0 as nat),
                None => self.spec_field_offset(field_index as nat) is None,
            },
    ;

    /// The bytes of this value in the machine's own byte order.
    fn to_byte_vec(self) -> (r: Vec<u8>)
        ensures
            r@ == self.spec_bytes(ByteOrder::Little) || r@ == self.spec_bytes(ByteOrder::Big),
    {
        let order = native_byte_order();
        self.to_bytes_in(order)
    }
}

impl ToByteVec for u8 {
    open spec fn spec_bytes(&self, order: ByteOrder) -> Seq<u8> {
        int_bytes(*self as u128 as nat, 1, order)
    }

    open spec fn spec_stride(&self) -> nat {
        1
    }

    open spec fn spec_field_offset(&self, field_index: nat) -> Option<nat> {
        None
    }

    fn to_bytes_in(self, order: ByteOrder) -> (r: Vec<u8>) {
        encode_int(self as u128, 1, order)
    }

    fn stride(&self) -> (r: Bytes) {
        Bytes(1)
    }

    fn field_offset(&self, field_index: usize) -> (r: Option<Bytes>) {
        None
    }
}

impl ToByteVec for u16 {
    open spec fn spec_bytes(&self, order: ByteOrder) -> Seq<u8> {
        int_bytes(*self as u128 as nat, 2, order)
    }

    open spec fn spec_stride(&self) -> nat {
        2
    }

    open spec fn spec_field_offset(&self, field_index: nat) -> Option<nat> {
        None
    }

    fn to_bytes_in(self, order: ByteOrder) -> (r: Vec<u8>) {
        encode_int(self as u128, 2, order)
    }

    fn stride(&self) -> (r: Bytes) {
        Bytes(2)
    }

    fn field_offset(&self, field_index: usize) -> (r: Option<Bytes>) {
        None
    }
}

impl ToByteVec for u32 {
    open spec fn spec_bytes(&self, order: ByteOrder) -> Seq<u8> {
        int_bytes(*self as u128 as nat, 4, order)
    }

    open spec fn spec_stride(&self) -> nat {
        4
    }

    open spec fn spec_field_offset(&self, field_index: nat) -> Option<nat> {
        None
    }

    fn to_bytes_in(self, order: ByteOrder) -> (r: Vec<u8>) {
        encode_int(self as u128, 4, order)
    }

    fn stride(&self) -> (r: Bytes) {
        Bytes(4)
    }

    fn field_offset(&self, field_index: usize) -> (r: Option<Bytes>) {
        None
    }
}

impl ToByteVec for u64 {
    open spec fn spec_bytes(&self, order: ByteOrder) -> Seq<u8> {
        int_bytes(*self as u128 as nat, 8, order)
    }

    open spec fn spec_stride(&self) -> nat {
        8
    }

    open spec fn spec_field_offset(&self, field_index: nat) -> Option<nat> {
        None
    }

    fn to_bytes_in(self, order: ByteOrder) -> (r: Vec<u8>) {
        encode_int(self as u128, 8, order)
    }

    fn stride(&self) -> (r: Bytes) {
        Bytes(8)
    }

    fn field_offset(&self, field_index: usize) -> (r: Option<Bytes>) {
        None
    }
}

impl ToByteVec for u128 {
    open spec fn spec_bytes(&self, order: ByteOrder) -> Seq<u8> {
        int_bytes(*self as u128 as nat, 16, order)
    }

    open spec fn spec_stride(&self) -> nat {
        16
    }

    open spec fn spec_field_offset(&self, field_index: nat) -> Option<nat> {
        None
    }

    fn to_bytes_in(self, order: ByteOrder) -> (r: Vec<u8>) {
        encode_int(self as u128, 16, order)
    }

    fn stride(&self) -> (r: Bytes) {
        Bytes(16)
    }

    fn field_offset(&self, field_index: usize) -> (r: Option<Bytes>) {
        None
    }
}

impl ToByteVec for i8 {
    open spec fn spec_bytes(&self, order: ByteOrder) -> Seq<u8> {
        int_bytes(*self as u128 as nat, 1, order)
    }

    open spec fn spec_stride(&self) -> nat {
        1
    }

    open spec fn spec_field_offset(&self, field_index: nat) -> Option<nat> {
        None
    }

    fn to_bytes_in(self, order: ByteOrder) -> (r: Vec<u8>) {
        encode_int(self as u128, 1, order)
    }

    fn stride(&self) -> (r: Bytes) {
        Bytes(1)
    }

    fn field_offset(&self, field_index: usize) -> (r: Option<Bytes>) {
        None
    }
}

impl ToByteVec for i16 {
    open spec fn spec_bytes(&self, order: ByteOrder) -> Seq<u8> {
        int_bytes(*self as u128 as nat, 2, order)
    }

    open spec fn spec_stride(&self) -> nat {
        2
    }

    open spec fn spec_field_offset(&self, field_index: nat) -> Option<nat> {
        None
    }

    fn to_bytes_in(self, order: ByteOrder) -> (r: Vec<u8>) {
        encode_int(self as u128, 2, order)
    }

    fn stride(&self) -> (r: Bytes) {
        Bytes(2)
    }

    fn field_offset(&self, field_index: usize) -> (r: Option<Bytes>) {
        None
    }
}

impl ToByteVec for i32 {
    open spec fn spec_bytes(&self, order: ByteOrder) -> Seq<u8> {
        int_bytes(*self as u128 as nat, 4, order)
    }

    open spec fn spec_stride(&self) -> nat {
        4
    }

    open spec fn spec_field_offset(&self, field_index: nat) -> Option<nat> {
        None
    }

    fn to_bytes_in(self, order: ByteOrder) -> (r: Vec<u8>) {
        encode_int(self as u128, 4, order)
    }

    fn stride(&self) -> (r: Bytes) {
        Bytes(4)
    }

    fn field_offset(&self, field_index: usize) -> (r: Option<Bytes>) {
        None
    }
}

impl ToByteVec for i64 {
    open spec fn spec_bytes(&self, order: ByteOrder) -> Seq<u8> {
        int_bytes(*self as u128 as nat, 8, order)
    }

    open spec fn spec_stride(&self) -> nat {
        8
    }

    open spec fn spec_field_offset(&self, field_index: nat) -> Option<nat> {
        None
    }

    fn to_bytes_in(self, order: ByteOrder) -> (r: Vec<u8>) {
        encode_int(self as u128, 8, order)
    }

    fn stride(&self) -> (r: Bytes) {
        Bytes(8)
    }

    fn field_offset(&self, field_index: usize) -> (r: Option<Bytes>) {
        None
    }
}

impl ToByteVec for i128 {
    open spec fn spec_bytes(&self, order: ByteOrder) -> Seq<u8> {
        int_bytes(*self as u128 as nat, 16, order)
    }

    open spec fn spec_stride(&self) -> nat {
        16
    }

    open spec fn spec_field_offset(&self, field_index: nat) -> Option<nat> {
        None
    }

    fn to_bytes_in(self, order: ByteOrder) -> (r: Vec<u8>) {
        encode_int(self as u128, 16, order)
    }

    fn stride(&self) -> (r: Bytes) {
        Bytes(16)
    }

    fn field_offset(&self, field_index: usize) -> (r: Option<Bytes>) {
        None
    }
}

impl ToByteVec for bool {
    open spec fn spec_bytes(&self, order: ByteOrder) -> Seq<u8> {
        seq![if *self { 1u8 } else { 0u8 }]
    }

    open spec fn spec_stride(&self) -> nat {
        1
    }

    open spec fn spec_field_offset(&self, field_index: nat) -> Option<nat> {
        None
    }

    fn to_bytes_in(self, order: ByteOrder) -> (r: Vec<u8>) {
        let b: u8 = if self { 1 } else { 0 };
        vec![b]
    }

    fn stride(&self) -> (r: Bytes) {
        Bytes(1)
    }

    fn field_offset(&self, field_index: usize) -> (r: Option<Bytes>) {
        None
    }
}

/// The bytes of each item of `s` in turn.
pub open spec fn concat_bytes<T: ToByteVec>(s: Seq<T>, order: ByteOrder) -> Seq<u8>
    decreases s.len(),
{
    if s.len() == 0 {
        Seq::empty()
    } else {
        s[0].spec_bytes(order) + concat_bytes(s.drop_first(), order)
    }
}

/// A sequence of values is laid out item after item; its stride is that of its first item
/// times its length, as the items of a buffer all share one layout.
impl<T: ToByteVec> ToByteVec for Vec<T> {
    open spec fn spec_bytes(&self, order: ByteOrder) -> Seq<u8> {
        concat_bytes(self@, order)
    }

    open spec fn spec_stride(&self) -> nat {
        if self@.len() > 0 {
            self@[0].spec_stride() * self@.len()
        } else {
            0
        }
    }

    open spec fn spec_field_offset(&self, field_index: nat) -> Option<nat> {
        None
    }

    fn to_bytes_in(self, order: ByteOrder) -> (r: Vec<u8>) {
        let ghost all = self@;
        let mut rest = self;
        let mut stack: Vec<T> = Vec::new();
        while rest.len() > 0
            invariant
                rest@ + stack@.reverse() == all,
            decreases rest.len(),
        {
            let ghost before = stack@;
            let x = rest.pop().unwrap();
            stack.push(x);
            assert(stack@.reverse() =~= seq![x] + before.reverse());
            assert(rest@ + stack@.reverse() =~= (rest@.push(x)) + before.reverse());
        }
        assert(stack@.reverse() =~= all);
        let mut bytes: Vec<u8> = Vec::new();
        while stack.len() > 0
            invariant
                concat_bytes(all, order) == bytes@ + concat_bytes(stack@.reverse(), order),
            decreases stack.len(),
        {
            let ghost before = stack@;
            let ghost done = bytes@;
            let x = stack.pop().unwrap();
            assert(before.reverse()[0] == x);
            assert(before.reverse().drop_first() =~= stack@.reverse());
            let mut part = x.to_bytes_in(order);
            let ghost p = part@;
            bytes.append(&mut part);
            assert(done + concat_bytes(before.reverse(), order) =~= bytes@ + concat_bytes(stack@.reverse(), order))
                by {
                assert(concat_bytes(before.reverse(), order) == p + concat_bytes(stack@.reverse(), order));
            };
        }
        assert(bytes@ + concat_bytes(stack@.reverse(), order) =~= bytes@);
        bytes
    }

    fn stride(&self) -> (r: Bytes) {
        let len = self.len();
        if len > 0 {
            proof {
                let a = self@[0].spec_stride();
                assert(a <= a * len) by (nonlinear_arith)
                    requires
                        len >= 1,
                ;
            }
            let first = self[0].stride();
            Bytes(first.0 * len)
        } else {
            Bytes(0)
        }
    }

    fn field_offset(&self, field_index: usize) -> (r: Option<Bytes>) {
        None
    }
}

/// An array is laid out item after item, like a sequence; its items are copied out.
impl<T: ToByteVec + Copy, const C: usize> ToByteVec for [T; C] {
    open spec fn spec_bytes(&self, order: ByteOrder) -> Seq<u8> {
        concat_bytes(self@, order)
    }

    open spec fn spec_stride(&self) -> nat {
        if self@.len() > 0 {
            self@[0].spec_stride() * self@.len()
        } else {
            0
        }
    }

    open spec fn spec_field_offset(&self, field_index: nat) -> Option<nat> {
        None
    }

    fn to_bytes_in(self, order: ByteOrder) -> (r: Vec<u8>) {
        let mut bytes: Vec<u8> = Vec::new();
        let mut i: usize = 0;
        assert(self@.subrange(0, self@.len() as int) =~= self@);
        while i < C
            invariant
                self@.len() == C,
                i <= C,
                concat_bytes(self@, order) == bytes@ + concat_bytes(self@.subrange(i as int, C as int), order),
            decreases C - i,
        {
            let ghost done = bytes@;
            let x = self[i];
            let mut part = x.to_bytes_in(order);
            let ghost p = part@;
            bytes.append(&mut part);
            proof {
                let rest = self@.subrange(i as int, C as int);
                assert(rest.drop_first() =~= self@.subrange(i + 1, C as int));
                assert(rest[0] == x);
                assert(concat_bytes(rest, order) == p + concat_bytes(rest.drop_first(), order));
                assert(done + concat_bytes(rest, order) =~= bytes@ + concat_bytes(self@.subrange(i + 1, C as int), order));
            }
            i = i + 1;
        }
        assert(concat_bytes(self@.subrange(C as int, C as int), order) =~= Seq::<u8>::empty());
        assert(bytes@ + Seq::<u8>::empty() =~= bytes@);
        bytes
    }

    fn stride(&self) -> (r: Bytes) {
        if C > 0 {
            proof {
                let a = self@[0].spec_stride();
                assert(a <= a * C) by (nonlinear_arith)
                    requires
                        C >= 1,
                ;
            }
            let first = self[0].stride();
            Bytes(first.0 * C)
        } else {
            Bytes(0)
        }
    }

    fn field_offset(&self, field_index: usize) -> (r: Option<Bytes>) {
        None
    }
}

} // verus!
