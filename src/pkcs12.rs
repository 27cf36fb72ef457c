use vstd::prelude::*;

use crate::credential::{encodings, Certificate, Identity, IdentityView};
use crate::error::Error;

verus! {

/// Status code of an import that yielded no identity ("item not found").
pub const NO_IDENTITY: i32 = -25300;

/// One record produced by the engine when it decrypts a PKCS#12 bundle: the
/// identity, if the record has one (or the engine's failure to read its
/// certificate), and the certificate chain stored beside it, if any.
#[derive(Debug)]
pub struct ImportRecord {
    pub identity: Option<Result<Identity, Error>>,
    pub cert_chain: Option<Vec<Certificate>>,
}

/// A PKCS#12 bundle after import: its identity and the rest of its chain.
#[derive(Debug)]
pub struct Pkcs12 {
    pub identity: Identity,
    pub chain: Vec<Certificate>,
}

/// `chain` with every occurrence of `leaf` taken out, order kept.
pub open spec fn without_leaf(chain: Seq<Seq<u8>>, leaf: Seq<u8>) -> Seq<Seq<u8>> {
    chain.filter(differs_from(leaf))
}

/// Holds of the encodings other than `leaf`.
pub open spec fn differs_from(leaf: Seq<u8>) -> spec_fn(Seq<u8>) -> bool {
    |c: Seq<u8>| c != leaf
}

/// The encodings of a record's chain; a record without one has an empty chain.
pub open spec fn record_chain(record: ImportRecord) -> Seq<Seq<u8>> {
    match record.cert_chain {
        Some(c) => encodings(c@),
        None => Seq::empty(),
    }
}

/// The records make a bundle: there is a first one, and it holds an
/// identity whose certificate the engine could read.
pub open spec fn yields_bundle(records: Seq<ImportRecord>) -> bool {
    &&& records.len() > 0
    &&& records[0].identity matches Some(Ok(_))
}

/// The identity of the bundle built from records that yield one.
pub open spec fn bundle_identity(records: Seq<ImportRecord>) -> IdentityView {
    records[0].identity->Some_0->Ok_0@
}

/// The chain of the bundle built from records that yield one: the first
/// record's chain without the identity's own certificate.
pub open spec fn bundle_chain(records: Seq<ImportRecord>) -> Seq<Seq<u8>> {
    without_leaf(record_chain(records[0]), bundle_identity(records).certificate)
}

/// Copies `chain` without the certificates whose encoding equals `leaf`'s.
fn filter_leaf(chain: &Vec<Certificate>, leaf: &Certificate) -> (r: Vec<Certificate>)
    ensures
        encodings(r@) == without_leaf(encodings(chain@), leaf@),
{
    let mut out: Vec<Certificate> = Vec::new();
    let mut i: usize = 0;
    while i < chain.len()
        invariant
            i <= chain@.len(),
            encodings(out@) == without_leaf(encodings(chain@.subrange(0, i as int)), leaf@),
        decreases chain@.len() - i,
    {
        let c = &chain[i];
        proof {
            let prefix = encodings(chain@.subrange(0, i as int));
            assert(encodings(chain@.subrange(0, i + 1)) =~= prefix.push(c@));
            prefix.lemma_filter_push(c@, differs_from(leaf@));
        }
        if !c.same_encoding(leaf) {
            let kept = c.duplicate();
            proof {
                assert(encodings(out@.push(kept)) =~= encodings(out@).push(kept@));
            }
            out.push(kept);
        }
        i = i + 1;
    }
    assert(chain@.subrange(0, chain@.len() as int) =~= chain@);
    out
}

impl Pkcs12 {
    /// Builds the bundle from what the engine's PKCS#12 import returned.
    ///
    /// A failed import (a malformed bundle, a wrong passphrase, a storage
    /// failure) is handed back unchanged. Only the first record counts: an
    /// import without records, or whose first record has no identity, fails
    /// with `NO_IDENTITY`, and a failure to read that identity's certificate
    /// is handed back. Otherwise the first record gives the identity, and
    /// its chain, without the identity's own certificate, gives the chain.
    pub fn parse(import: Result<Vec<ImportRecord>, Error>) -> (r: Result<Pkcs12, Error>)
        ensures
            match import {
                Err(e) => r == Err::<Pkcs12, Error>(e),
                Ok(records) => if yields_bundle(records@) {
                    &&& r is Ok
                    &&& r->Ok_0.identity@ == bundle_identity(records@)
                    &&& encodings(r->Ok_0.chain@) == bundle_chain(records@)
                } else if records@.len() > 0 && records@[0].identity is Some
                    && records@[0].identity->Some_0 is Err {
                    r == Err::<Pkcs12, Error>(records@[0].identity->Some_0->Err_0)
                } else {
                    &&& r is Err
                    &&& r->Err_0.spec_code() == NO_IDENTITY
                },
            },
    {
        match import {
            Err(e) => Err(e),
            Ok(mut records) => {
                if records.len() == 0 {
                    return Err(no_identity());
                }
                let first = records.remove(0);
                match first.identity {
                    None => Err(no_identity()),
                    Some(Err(e)) => Err(e),
                    Some(Ok(identity)) => {
                        let chain = match &first.cert_chain {
                            Some(c) => filter_leaf(c, identity.certificate()),
                            None => {
                                let empty: Vec<Certificate> = Vec::new();
                                assert(encodings(empty@) =~= Seq::<Seq<u8>>::empty());
                                assert(without_leaf(Seq::<Seq<u8>>::empty(), identity@.certificate)
                                    =~= Seq::<Seq<u8>>::empty()) by {
                                    reveal(Seq::filter);
                                }
                                empty
                            },
                        };
                        Ok(Pkcs12 { identity, chain })
                    },
                }
            },
        }
    }
}

fn no_identity() -> (r: Error)
    ensures
        r.spec_code() == NO_IDENTITY,
{
    Error::new(NO_IDENTITY, "the bundle holds no identity".to_string())
}

/// Deduplication keeps every certificate but the leaf: a certificate is in
/// the filtered chain exactly when it is in the chain and differs from the
/// leaf, and the leaf itself never is.
pub proof fn lemma_chain_excludes_leaf(chain: Seq<Seq<u8>>, leaf: Seq<u8>)
    ensures
        !without_leaf(chain, leaf).contains(leaf),
        forall|c: Seq<u8>|
            #[trigger] without_leaf(chain, leaf).contains(c) <==> (chain.contains(c) && c != leaf),
{
    broadcast use vstd::seq_lib::group_filter_ensures;

    let pred = differs_from(leaf);
    assert forall|c: Seq<u8>|
        #[trigger] without_leaf(chain, leaf).contains(c) <==> (chain.contains(c) && c != leaf) by {
        if chain.contains(c) && c != leaf {
            let i = choose|i: int| 0 <= i < chain.len() && chain[i] == c;
            assert(pred(chain[i]));
        }
        if without_leaf(chain, leaf).contains(c) {
            chain.lemma_filter_contains_rev(pred, c);
            let j = choose|j: int| 0 <= j < chain.filter(pred).len() && chain.filter(pred)[j] == c;
            assert(pred(chain.filter(pred)[j]));
        }
    }
}

/// Deduplication keeps multiplicities: the leaf occurs in the filtered chain
/// zero times, and every other certificate as many times as in the chain.
pub proof fn lemma_chain_keeps_other_counts(chain: Seq<Seq<u8>>, leaf: Seq<u8>)
    ensures
        forall|c: Seq<u8>|
            #[trigger] without_leaf(chain, leaf).to_multiset().count(c) == if c == leaf {
                0
            } else {
                chain.to_multiset().count(c)
            },
    decreases chain.len(),
{
    broadcast use vstd::seq_lib::group_to_multiset_ensures;
    broadcast use vstd::multiset::group_multiset_axioms;

    if chain.len() == 0 {
        reveal(Seq::filter);
        assert(without_leaf(chain, leaf) =~= chain);
    } else {
        let rest = chain.drop_last();
        let last = chain.last();
        lemma_chain_keeps_other_counts(rest, leaf);
        assert(rest.push(last) =~= chain);
        rest.lemma_filter_push(last, differs_from(leaf));
        vstd::seq_lib::to_multiset_build(rest, last);
        if last != leaf {
            vstd::seq_lib::to_multiset_build(without_leaf(rest, leaf), last);
            assert(without_leaf(chain, leaf) == without_leaf(rest, leaf).push(last));
        } else {
            assert(without_leaf(chain, leaf) == without_leaf(rest, leaf));
        }
        assert forall|c: Seq<u8>|
            #[trigger] without_leaf(chain, leaf).to_multiset().count(c) == if c == leaf {
                0
            } else {
                chain.to_multiset().count(c)
            } by {
            assert(chain.to_multiset() == rest.to_multiset().insert(last));
        }
    }
}

/// Records whose first one holds a readable identity always give a bundle,
/// and the bundle's chain never holds the identity's own certificate, while
/// every other certificate of the first record's chain stays as often as it
/// was there.
pub proof fn lemma_bundle_chain_excludes_identity(records: Seq<ImportRecord>)
    requires
        yields_bundle(records),
    ensures
        !bundle_chain(records).contains(bundle_identity(records).certificate),
        forall|c: Seq<u8>|
            #[trigger] bundle_chain(records).to_multiset().count(c) == if c
                == bundle_identity(records).certificate {
                0
            } else {
                record_chain(records[0]).to_multiset().count(c)
            },
{
    let chain = record_chain(records[0]);
    let leaf = bundle_identity(records).certificate;
    lemma_chain_excludes_leaf(chain, leaf);
    lemma_chain_keeps_other_counts(chain, leaf);
}

} // verus!
