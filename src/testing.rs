//! Fixture types for authorities, accounts and extrinsics.

use vstd::prelude::*;

verus! {

/// Byte `i` (from the least significant) of `x`.
pub open spec fn le_byte(x: u64, i: int) -> u8 {
    ((x >> ((8 * i) as u64)) & 0xff) as u8
}

/// The eight bytes of `x`, least significant first.
pub open spec fn le_bytes(x: u64) -> Seq<u8> {
    Seq::new(8, |i: int| le_byte(x, i))
}

/// Byte `i` of `msg`, where a message shorter than `i + 1` bytes reads as
/// padded with `42`.
pub open spec fn padded_byte(msg: Seq<u8>, i: int) -> int {
    if i < msg.len() {
        msg[i] as int
    } else {
        42
    }
}

/// The signature of `msg`: its first eight bytes, padded with `42`, read as a
/// little-endian number.
pub open spec fn signature_of(msg: Seq<u8>) -> int {
    padded_byte(msg, 0) + 256 * (padded_byte(msg, 1) + 256 * (padded_byte(msg, 2) + 256 * (
    padded_byte(msg, 3) + 256 * (padded_byte(msg, 4) + 256 * (padded_byte(msg, 5) + 256 * (
    padded_byte(msg, 6) + 256 * padded_byte(msg, 7)))))))
}

fn u64_le_bytes(x: u64) -> (r: [u8; 8])
    ensures
        r@ == le_bytes(x),
{
    let mut buf: [u8; 8] = [0u8; 8];
    let mut i: usize = 0;
    while i < 8
        invariant
            i <= 8,
            buf@.len() == 8,
            forall|j: int| 0 <= j < i ==> buf@[j] == le_byte(x, j),
        decreases 8 - i,
    {
        buf[i] = ((x >> ((8 * i) as u64)) & 0xff) as u8;
        i = i + 1;
    }
    assert(buf@ =~= le_bytes(x));
    buf
}

fn padded_byte_at(msg: &[u8], i: usize) -> (r: u8)
    ensures
        r as int == padded_byte(msg@, i as int),
{
    if i < msg.len() {
        msg[i]
    } else {
        42
    }
}

/// Authority Id
#[derive(Default, PartialEq, Eq, Clone, Debug, Hash, PartialOrd, Ord)]
pub struct UintAuthorityId(pub u64);

impl From<u64> for UintAuthorityId {
    fn from(id: u64) -> (r: Self)
        ensures
            r.0 == id,
    {
        UintAuthorityId(id)
    }
}

impl vstd::std_specs::convert::FromSpecImpl<u64> for UintAuthorityId {
    open spec fn obeys_from_spec() -> bool {
        true
    }

    open spec fn from_spec(id: u64) -> Self {
        UintAuthorityId(id)
    }
}

impl From<UintAuthorityId> for u64 {
    fn from(id: UintAuthorityId) -> (r: u64)
        ensures
            r == id.0,
    {
        id.0
    }
}

impl vstd::std_specs::convert::FromSpecImpl<UintAuthorityId> for u64 {
    open spec fn obeys_from_spec() -> bool {
        true
    }

    open spec fn from_spec(id: UintAuthorityId) -> u64 {
        id.0
    }
}

/// Relies on rand's `thread_rng().next_u64()`: some number, nothing known of
/// which.
#[verifier::external_body]
fn random_u64() -> (r: u64) {
    rand::RngCore::next_u64(&mut rand::thread_rng())
}

impl UintAuthorityId {
    /// Set the list of keys returned for all keys of this type: `all_keys`
    /// becomes the authorities of `keys`, in order.
    pub fn set_all_keys(all_keys: &mut Vec<UintAuthorityId>, keys: &Vec<u64>)
        ensures
            final(all_keys)@.len() == keys@.len(),
            forall|i: int| 0 <= i < keys@.len() ==> #[trigger] final(all_keys)@[i].0 == keys@[i],
    {
        let mut out: Vec<UintAuthorityId> = Vec::new();
        let mut i: usize = 0;
        while i < keys.len()
            invariant
                i <= keys@.len(),
                out@.len() == i,
                forall|j: int| 0 <= j < i ==> #[trigger] out@[j].0 == keys@[j],
            decreases keys@.len() - i,
        {
            out.push(UintAuthorityId(keys[i]));
            i = i + 1;
        }
        *all_keys = out;
    }

    /// All keys of this type: a copy of the list `all_keys`.
    pub fn all(all_keys: &Vec<UintAuthorityId>) -> (r: Vec<UintAuthorityId>)
        ensures
            r@ == all_keys@,
    {
        let mut out: Vec<UintAuthorityId> = Vec::new();
        let mut i: usize = 0;
        while i < all_keys.len()
            invariant
                i <= all_keys@.len(),
                out@ == all_keys@.subrange(0, i as int),
            decreases all_keys@.len() - i,
        {
            out.push(UintAuthorityId(all_keys[i].0));
            assert(out@ =~= all_keys@.subrange(0, i + 1));
            i = i + 1;
        }
        assert(out@ =~= all_keys@);
        out
    }

    /// A fresh authority with a random id; the seed is not used.
    pub fn generate_pair(_seed: Option<Vec<u8>>) -> (r: Self) {
        UintAuthorityId(random_u64())
    }

    /// Sign `msg`: the signature is the first eight bytes of `msg`, padded
    /// with `42`, read as a little-endian `u64`.
    pub fn sign(&self, msg: &[u8]) -> (r: Option<u64>)
        ensures
            r matches Some(s) && s as int == signature_of(msg@),
    {
        let mut acc: u64 = padded_byte_at(msg, 7) as u64;
        acc = acc * 256 + padded_byte_at(msg, 6) as u64;
        acc = acc * 256 + padded_byte_at(msg, 5) as u64;
        acc = acc * 256 + padded_byte_at(msg, 4) as u64;
        acc = acc * 256 + padded_byte_at(msg, 3) as u64;
        acc = acc * 256 + padded_byte_at(msg, 2) as u64;
        acc = acc * 256 + padded_byte_at(msg, 1) as u64;
        acc = acc * 256 + padded_byte_at(msg, 0) as u64;
        Some(acc)
    }

    /// Whether `signature` is the signature of `msg`.
    pub fn verify(&self, msg: &[u8], signature: &u64) -> (r: bool)
        ensures
            r == (*signature as int == signature_of(msg@)),
    {
        match self.sign(msg) {
            Some(s) => s == *signature,
            None => false,
        }
    }

    /// The raw bytes of the id, least significant first.
    pub fn to_raw_vec(&self) -> (r: Vec<u8>)
        ensures
            r@ == le_bytes(self.0),
    {
        let bytes = u64_le_bytes(self.0);
        let mut out: Vec<u8> = Vec::new();
        let mut i: usize = 0;
        while i < 8
            invariant
                i <= 8,
                bytes@ == le_bytes(self.0),
                out@ == bytes@.subrange(0, i as int),
            decreases 8 - i,
        {
            out.push(bytes[i]);
            assert(out@ =~= bytes@.subrange(0, i + 1));
            i = i + 1;
        }
        assert(out@ =~= bytes@);
        out
    }
}

/// An opaque extrinsic wrapper type.
#[derive(PartialEq, Eq, Clone, Debug)]
pub struct ExtrinsicWrapper<Xt>(Xt);

impl<Xt> ExtrinsicWrapper<Xt> {
    /// The wrapped extrinsic.
    pub closed spec fn inner(&self) -> Xt {
        self.0
    }

    /// Returns the wrapped extrinsic.
    pub fn get(&self) -> (r: &Xt)
        ensures
            *r == self.inner(),
    {
        &self.0
    }

    /// Whether the extrinsic is signed: not known of an opaque extrinsic.
    pub fn is_signed(&self) -> (r: Option<bool>)
        ensures
            r is None,
    {
        None
    }
}

impl<Xt> From<Xt> for ExtrinsicWrapper<Xt> {
    fn from(xt: Xt) -> (r: Self)
        ensures
            r.inner() == xt,
    {
        ExtrinsicWrapper(xt)
    }
}

impl<Xt> vstd::std_specs::convert::FromSpecImpl<Xt> for ExtrinsicWrapper<Xt> {
    open spec fn obeys_from_spec() -> bool {
        true
    }

    closed spec fn from_spec(xt: Xt) -> Self {
        ExtrinsicWrapper(xt)
    }
}

/// Test transaction, standing in for a real one.
#[derive(PartialEq, Eq, Clone)]
pub struct TestXt<AccountId, Call, Extra> {
    /// Signature with extra.
    ///
    /// If some, then the transaction is signed. Transaction is unsigned
    /// otherwise.
    pub signature: Option<(AccountId, Extra)>,
    /// Call.
    pub call: Call,
}

impl<AccountId, Call, Extra> TestXt<AccountId, Call, Extra> {
    /// New signed test `TestXt`.
    pub fn new(call: Call, signature: (AccountId, Extra)) -> (r: Self)
        ensures
            r.call == call,
            r.signature == Some(signature),
    {
        TestXt { call, signature: Some(signature) }
    }

    /// New unsigned test `TestXt`.
    pub fn new_unsigned(call: Call) -> (r: Self)
        ensures
            r.call == call,
            r.signature is None,
    {
        TestXt { call, signature: None }
    }

    /// New test `TestXt` with the given call and optional signature; always
    /// succeeds.
    pub fn new_extrinsic(call: Call, signature: Option<(AccountId, Extra)>) -> (r: Option<Self>)
        ensures
            r == Some(TestXt { call, signature }),
    {
        Some(TestXt { signature, call })
    }

    /// Whether the transaction is signed; always known.
    pub fn is_signed(&self) -> (r: Option<bool>)
        ensures
            r == Some(self.signature is Some),
    {
        Some(self.signature.is_some())
    }

    /// The account that signed the transaction, if it is signed.
    pub fn sender(&self) -> (r: Option<&AccountId>)
        ensures
            self.signature is None ==> r is None,
            self.signature matches Some(sig) ==> r == Some(&sig.0),
    {
        match &self.signature {
            Some(sig) => Some(&sig.0),
            None => None,
        }
    }
}

/// A lightweight account id: eight bytes, the little-endian form of a `u64`.
#[derive(PartialEq, Eq, Clone, Debug, PartialOrd, Default, Ord)]
pub struct TestAccountId(pub [u8; 8]);

impl TestAccountId {
    /// Create a new `TestAccountId` from the little-endian bytes of `id`.
    pub fn new(id: u64) -> (r: Self)
        ensures
            r.0@ == le_bytes(id),
    {
        TestAccountId(u64_le_bytes(id))
    }

    /// The bytes of the id.
    pub fn as_bytes(&self) -> (r: &[u8])
        ensures
            r@ == self.0@,
    {
        self.0.as_slice()
    }
}

impl From<u64> for TestAccountId {
    fn from(val: u64) -> (r: Self)
        ensures
            r.0@ == le_bytes(val),
    {
        let r = TestAccountId::new(val);
        proof {
            let c = choose|c: TestAccountId| c.0@ == le_bytes(val);
            assert(c.0 =~= r.0);
        }
        r
    }
}

impl vstd::std_specs::convert::FromSpecImpl<u64> for TestAccountId {
    open spec fn obeys_from_spec() -> bool {
        true
    }

    open spec fn from_spec(val: u64) -> Self {
        choose|c: TestAccountId| c.0@ == le_bytes(val)
    }
}

impl From<[u8; 32]> for TestAccountId {
    fn from(val: [u8; 32]) -> (r: Self)
        ensures
            r.0@ == val@.subrange(0, 8),
    {
        let mut buf: [u8; 8] = [0u8; 8];
        let mut i: usize = 0;
        while i < 8
            invariant
                i <= 8,
                buf@.len() == 8,
                val@.len() == 32,
                forall|j: int| 0 <= j < i ==> buf@[j] == val@[j],
            decreases 8 - i,
        {
            buf[i] = val[i];
            i = i + 1;
        }
        assert(buf@ =~= val@.subrange(0, 8));
        let r = TestAccountId(buf);
        proof {
            let c = choose|c: TestAccountId| c.0@ == val@.subrange(0, 8);
            assert(c.0 =~= r.0);
        }
        r
    }
}

impl vstd::std_specs::convert::FromSpecImpl<[u8; 32]> for TestAccountId {
    open spec fn obeys_from_spec() -> bool {
        true
    }

    open spec fn from_spec(val: [u8; 32]) -> Self {
        choose|c: TestAccountId| c.0@ == val@.subrange(0, 8)
    }
}

impl From<TestAccountId> for [u8; 32] {
    fn from(id: TestAccountId) -> (r: [u8; 32])
        ensures
            r@ == id.0@ + Seq::new(24, |i: int| 0u8),
    {
        let mut buf: [u8; 32] = [0u8; 32];
        let mut i: usize = 0;
        while i < 8
            invariant
                i <= 8,
                buf@.len() == 32,
                id.0@.len() == 8,
                forall|j: int| 0 <= j < i ==> buf@[j] == id.0@[j],
                forall|j: int| 8 <= j < 32 ==> buf@[j] == 0u8,
            decreases 8 - i,
        {
            buf[i] = id.0[i];
            i = i + 1;
        }
        assert(buf@ =~= id.0@ + Seq::new(24, |i: int| 0u8));
        proof {
            let c = choose|c: [u8; 32]| (#[trigger] c@) == id.0@ + Seq::new(24, |i: int| 0u8);
            assert(c =~= buf);
        }
        buf
    }
}

impl vstd::std_specs::convert::FromSpecImpl<TestAccountId> for [u8; 32] {
    open spec fn obeys_from_spec() -> bool {
        true
    }

    open spec fn from_spec(id: TestAccountId) -> [u8; 32] {
        choose|c: [u8; 32]| (#[trigger] c@) == id.0@ + Seq::new(24, |i: int| 0u8)
    }
}

/// An account id survives the trip through its 32-byte form: the padding
/// added by the conversion into 32 bytes is dropped by the conversion back.
pub proof fn lemma_account_bytes_round_trip(id: TestAccountId)
    ensures
        (id.0@ + Seq::new(24, |i: int| 0u8)).subrange(0, 8) == id.0@,
{
    assert((id.0@ + Seq::new(24, |i: int| 0u8)).subrange(0, 8) =~= id.0@);
}

} // verus!
