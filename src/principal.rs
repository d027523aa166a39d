use vstd::prelude::*;

verus! {

/// The longest principal, in bytes.
pub const MAX_PRINCIPAL_LEN: usize = 29;

/// The textual form of a principal: base32 of a CRC-32 and the bytes, grouped by '-'.
pub uninterp spec fn principal_text(bytes: Seq<u8>) -> Seq<char>;

/// The bytes that a principal's textual form stands for, if it is well formed.
pub uninterp spec fn principal_parse(text: Seq<char>) -> Option<Seq<u8>>;

/// An identity on the Internet Computer: up to 29 bytes.
#[derive(Clone, Copy, Debug)]
pub struct Principal {
    len: u8,
    bytes: [u8; 29],
}

impl View for Principal {
    type V = Seq<u8>;

    closed spec fn view(&self) -> Seq<u8> {
        self.bytes@.subrange(0, self.len as int)
    }
}

impl Principal {
    #[verifier::type_invariant]
    spec fn inv(&self) -> bool {
        self.len <= 29
    }

    /// The anonymous principal, the one byte 4.
    pub fn anonymous() -> (r: Principal)
        ensures
            r@ == seq![4u8],
    {
        let mut bytes = [0u8; 29];
        bytes[0] = 4u8;
        let r = Principal { len: 1, bytes };
        assert(r@ =~= seq![4u8]);
        r
    }

    /// The principal with the given bytes, if there are at most 29 of them.
    pub fn try_from_slice(slice: &[u8]) -> (r: Option<Principal>)
        ensures
            slice@.len() <= MAX_PRINCIPAL_LEN <==> r.is_some(),
            r matches Some(p) ==> p@ == slice@,
    {
        if slice.len() > MAX_PRINCIPAL_LEN {
            return None;
        }
        let mut bytes = [0u8; 29];
        let mut i: usize = 0;
        while i < slice.len()
            invariant
                i <= slice@.len() <= 29,
                bytes@.len() == 29,
                forall|j: int| 0 <= j < i ==> bytes@[j] == slice@[j],
            decreases slice@.len() - i,
        {
            bytes[i] = slice[i];
            i = i + 1;
        }
        let r = Principal { len: slice.len() as u8, bytes };
        assert(r@ =~= slice@);
        Some(r)
    }

    /// The principal's bytes.
    pub fn as_slice(&self) -> (r: Vec<u8>)
        ensures
            r@ == self@,
    {
        proof { use_type_invariant(self); }
        let mut r: Vec<u8> = Vec::new();
        let mut i: u8 = 0;
        while i < self.len
            invariant
                self.len <= 29,
                i <= self.len,
                r@ == self.bytes@.subrange(0, i as int),
            decreases self.len - i,
        {
            r.push(self.bytes[i as usize]);
            i = i + 1;
            assert(r@ =~= self.bytes@.subrange(0, i as int));
        }
        r
    }

    /// Whether two principals hold the same bytes.
    pub fn same_as(&self, other: &Principal) -> (r: bool)
        ensures
            r == (self@ == other@),
    {
        proof {
            use_type_invariant(self);
            use_type_invariant(other);
        }
        if self.len != other.len {
            assert(self@.len() != other@.len());
            return false;
        }
        let mut i: u8 = 0;
        while i < self.len
            invariant
                self.len == other.len <= 29,
                i <= self.len,
                forall|j: int| 0 <= j < i ==> self.bytes@[j] == other.bytes@[j],
            decreases self.len - i,
        {
            if self.bytes[i as usize] != other.bytes[i as usize] {
                assert(self@[i as int] != other@[i as int]);
                return false;
            }
            i = i + 1;
        }
        assert(self@ =~= other@);
        true
    }

    /// The textual form of the principal.
    pub fn to_text(&self) -> (r: String)
        ensures
            r@ == principal_text(self@),
    {
        proof { use_type_invariant(self); }
        let b = self.as_slice();
        bytes_to_principal_text(&b)
    }

    /// Parses the textual form of a principal.
    pub fn from_text(text: &str) -> (r: Option<Principal>)
        ensures
            r.is_some() == principal_parse(text@).is_some(),
            r matches Some(p) ==> principal_parse(text@) == Some(p@),
    {
        match parse_principal_text(text) {
            Some(b) => Principal::try_from_slice(b.as_slice()),
            None => None,
        }
    }
}

/// Relies on candid's `Principal::from_slice` and `Principal::to_text`: the
/// textual form depends on the bytes alone; `from_slice` panics above 29 bytes.
#[verifier::external_body]
fn bytes_to_principal_text(b: &Vec<u8>) -> (r: String)
    requires
        b@.len() <= MAX_PRINCIPAL_LEN,
    ensures
        r@ == principal_text(b@),
{
    candid::Principal::from_slice(b.as_slice()).to_text()
}

/// Relies on candid's `Principal::from_text`: it accepts a text or not, and the
/// bytes it yields come from the text alone and are at most 29 long.
#[verifier::external_body]
fn parse_principal_text(text: &str) -> (r: Option<Vec<u8>>)
    ensures
        r.is_some() == principal_parse(text@).is_some(),
        r matches Some(b) ==> principal_parse(text@) == Some(b@) && b@.len() <= MAX_PRINCIPAL_LEN,
{
    candid::Principal::from_text(text).ok().map(|p| p.as_slice().to_vec())
}

} // verus!
