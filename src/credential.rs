use vstd::prelude::*;

verus! {

/// One X.509 certificate, held and compared by its DER encoding.
#[derive(Debug)]
pub struct Certificate {
    der: Vec<u8>,
}

impl View for Certificate {
    type V = Seq<u8>;

    closed spec fn view(&self) -> Seq<u8> {
        self.der@
    }
}

impl Certificate {
    /// A certificate from its DER encoding.
    pub fn from_der(der: Vec<u8>) -> (r: Certificate)
        ensures
            r@ == der@,
    {
        Certificate { der }
    }

    /// The certificate's DER encoding.
    pub fn to_der(&self) -> (r: Vec<u8>)
        ensures
            r@ == self@,
    {
        self.der.clone()
    }

    /// Whether two certificates have byte-for-byte the same encoding.
    pub fn same_encoding(&self, other: &Certificate) -> (r: bool)
        ensures
            r == (self@ == other@),
    {
        let n = self.der.len();
        if n != other.der.len() {
            return false;
        }
        let mut i: usize = 0;
        while i < n
            invariant
                n == self.der@.len(),
                n == other.der@.len(),
                i <= n,
                forall|j: int| 0 <= j < i ==> self.der@[j] == other.der@[j],
            decreases n - i,
        {
            if self.der[i] != other.der[i] {
                return false;
            }
            i = i + 1;
        }
        assert(self.der@ =~= other.der@);
        true
    }

    /// A second certificate with the same encoding.
    pub fn duplicate(&self) -> (r: Certificate)
        ensures
            r@ == self@,
    {
        Certificate { der: self.der.clone() }
    }
}

impl PartialEq for Certificate {
    fn eq(&self, other: &Certificate) -> (r: bool)
        ensures
            r == (self@ == other@),
    {
        self.same_encoding(other)
    }
}

impl vstd::std_specs::cmp::PartialEqSpecImpl for Certificate {
    open spec fn obeys_eq_spec() -> bool {
        true
    }

    open spec fn eq_spec(&self, other: &Certificate) -> bool {
        self@ == other@
    }
}

impl Eq for Certificate {}

/// A certificate bound to a private key that stays inside the engine; the
/// key is known here only by the engine's handle for it.
#[derive(Debug)]
pub struct Identity {
    certificate: Certificate,
    key: u64,
}

/// What an identity is: its certificate's encoding and its key handle.
pub struct IdentityView {
    pub certificate: Seq<u8>,
    pub key: u64,
}

impl View for Identity {
    type V = IdentityView;

    closed spec fn view(&self) -> IdentityView {
        IdentityView { certificate: self.certificate@, key: self.key }
    }
}

impl Identity {
    /// Binds a certificate to the engine's handle for its private key.
    pub fn new(certificate: Certificate, key: u64) -> (r: Identity)
        ensures
            r@.certificate == certificate@,
            r@.key == key,
    {
        Identity { certificate, key }
    }

    /// The identity's own (leaf) certificate.
    pub fn certificate(&self) -> (r: &Certificate)
        ensures
            r@ == self@.certificate,
    {
        &self.certificate
    }

    /// The engine's handle for the private key.
    pub fn key_handle(&self) -> (r: u64)
        ensures
            r == self@.key,
    {
        self.key
    }

    /// A second identity with the same certificate and key handle.
    pub fn duplicate(&self) -> (r: Identity)
        ensures
            r@ == self@,
    {
        Identity { certificate: self.certificate.duplicate(), key: self.key }
    }
}

/// The encodings of a sequence of certificates, in order.
pub open spec fn encodings(certs: Seq<Certificate>) -> Seq<Seq<u8>> {
    certs.map_values(|c: Certificate| c@)
}

/// A copy of a list of certificates, encoding for encoding.
pub fn duplicate_all(certs: &Vec<Certificate>) -> (r: Vec<Certificate>)
    ensures
        encodings(r@) == encodings(certs@),
{
    let mut out: Vec<Certificate> = Vec::new();
    let mut i: usize = 0;
    while i < certs.len()
        invariant
            i <= certs@.len(),
            out@.len() == i,
            forall|j: int| 0 <= j < i ==> out@[j]@ == certs@[j]@,
        decreases certs@.len() - i,
    {
        out.push(certs[i].duplicate());
        i = i + 1;
    }
    assert(encodings(out@) =~= encodings(certs@));
    out
}

} // verus!
