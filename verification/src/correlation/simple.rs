use vstd::prelude::*;

use crate::correlation::CorrelationProvider;
use crate::ddd::metadata::{
    MetaData, MetaView, has_key, lemma_meta_add_properties, lookup, meta_add, unique_keys,
};
use crate::message::base::Message;

verus! {

/// The models of a list of configured keys, in order.
pub open spec fn key_seq_view(ks: Seq<String>) -> Seq<Seq<char>> {
    Seq::new(ks.len(), |i: int| ks[i]@)
}

/// What a [`SimpleCorrelationProvider`] computes: walk the configured keys
/// in order and take, for each key the source metadata carries, that key
/// with the source's value; keys the source lacks are silently omitted.
pub open spec fn simple_corr(keys: Seq<Seq<char>>, meta: MetaView) -> MetaView
    decreases keys.len(),
{
    if keys.len() == 0 {
        Seq::empty()
    } else {
        let prev = simple_corr(keys.drop_last(), meta);
        let k = keys.last();
        if has_key(meta, k) {
            meta_add(prev, k, lookup(meta, k))
        } else {
            prev
        }
    }
}

/// Copies a fixed, configured set of metadata keys verbatim from the source
/// message to the computed correlation data.
#[derive(Debug)]
pub struct SimpleCorrelationProvider {
    keys: Vec<String>,
}

impl SimpleCorrelationProvider {
    /// The models of the configured keys, in order.
    pub closed spec fn keys_view(&self) -> Seq<Seq<char>> {
        key_seq_view(self.keys@)
    }

    /// A provider that copies exactly the given keys.
    pub fn new(keys: Vec<String>) -> (r: SimpleCorrelationProvider)
        ensures
            r.keys_view() == key_seq_view(keys@),
    {
        SimpleCorrelationProvider { keys }
    }
}

impl<T: Message> CorrelationProvider<T> for SimpleCorrelationProvider {
    /// Exactly the configured keys that the source's metadata carries, in
    /// configuration order, each with the source's value.
    #[verifier::loop_isolation(false)]
    fn correlation_for(&self, message: T) -> (r: MetaData)
        ensures
            r@ == simple_corr(self.keys_view(), message.meta_view()),
    {
        let meta = message.metadata();
        let mut out = MetaData::new();
        let mut i: usize = 0;
        while i < self.keys.len()
            invariant
                i <= self.keys.len(),
                out@ == simple_corr(self.keys_view().take(i as int), meta@),
            decreases self.keys.len() - i,
        {
            let key = &self.keys[i];
            match meta.get(key.as_str()) {
                Some(v) => {
                    let value = v.dup();
                    out.add(key.clone(), value);
                },
                None => {},
            }
            proof {
                assert(self.keys_view().take(i as int + 1).drop_last() =~= self.keys_view().take(
                    i as int,
                ));
                assert(self.keys_view().take(i as int + 1).last() == self.keys_view()[i as int]);
            }
            i = i + 1;
        }
        proof {
            assert(self.keys_view().take(self.keys_view().len() as int) =~= self.keys_view());
        }
        out
    }
}

/// What a simple provider returns has unique keys.
pub proof fn lemma_simple_corr_unique(keys: Seq<Seq<char>>, meta: MetaView)
    ensures
        unique_keys(simple_corr(keys, meta)),
    decreases keys.len(),
{
    if keys.len() == 0 {
    } else {
        lemma_simple_corr_unique(keys.drop_last(), meta);
        if has_key(meta, keys.last()) {
            lemma_meta_add_properties(
                simple_corr(keys.drop_last(), meta),
                keys.last(),
                lookup(meta, keys.last()),
            );
        }
    }
}

/// The simple provider's guarantee: the computed correlation data carries
/// exactly the keys that are both configured and present in the source
/// metadata, and each such key carries the source's value.
pub proof fn lemma_simple_provider_keys(keys: Seq<Seq<char>>, meta: MetaView)
    ensures
        forall|k: Seq<char>|
            #[trigger] has_key(simple_corr(keys, meta), k) <==> (keys.contains(k) && has_key(
                meta,
                k,
            )),
        forall|k: Seq<char>|
            #[trigger] has_key(simple_corr(keys, meta), k) ==> lookup(simple_corr(keys, meta), k)
                == lookup(meta, k),
    decreases keys.len(),
{
    let r = simple_corr(keys, meta);
    if keys.len() == 0 {
        assert(forall|k: Seq<char>| !keys.contains(k));
        assert(forall|k: Seq<char>| !has_key(r, k));
    } else {
        let rest = keys.drop_last();
        let k0 = keys.last();
        let prev = simple_corr(rest, meta);
        lemma_simple_provider_keys(rest, meta);
        lemma_simple_corr_unique(rest, meta);
        assert forall|k: Seq<char>| keys.contains(k) implies (k == k0 || rest.contains(k)) by {
            let i = choose|i: int| 0 <= i < keys.len() && keys[i] == k;
            if i < keys.len() - 1 {
                assert(rest[i] == k);
            }
        }
        assert forall|k: Seq<char>| rest.contains(k) implies keys.contains(k) by {
            let i = choose|i: int| 0 <= i < rest.len() && rest[i] == k;
            assert(keys[i] == k);
        }
        assert(keys.contains(k0)) by {
            assert(keys[keys.len() - 1] == k0);
        }
        if has_key(meta, k0) {
            lemma_meta_add_properties(prev, k0, lookup(meta, k0));
            assert(r == meta_add(prev, k0, lookup(meta, k0)));
            assert forall|k: Seq<char>| #[trigger] has_key(r, k) implies (keys.contains(k)
                && has_key(meta, k)) by {
                if k != k0 {
                    assert(has_key(prev, k));
                }
            }
            assert forall|k: Seq<char>| keys.contains(k) && has_key(meta, k) implies #[trigger]
            has_key(r, k) by {
                if k != k0 {
                    assert(rest.contains(k));
                    assert(has_key(prev, k));
                }
            }
            assert forall|k: Seq<char>| #[trigger] has_key(r, k) implies lookup(r, k) == lookup(
                meta,
                k,
            ) by {
                if k != k0 {
                    assert(has_key(prev, k));
                    assert(lookup(r, k) == lookup(prev, k));
                }
            }
        } else {
            assert(r == prev);
            assert forall|k: Seq<char>| #[trigger] has_key(r, k) implies (keys.contains(k)
                && has_key(meta, k)) by {}
            assert forall|k: Seq<char>| keys.contains(k) && has_key(meta, k) implies #[trigger]
            has_key(r, k) by {
                assert(k != k0);
                assert(rest.contains(k));
            }
        }
    }
}

} // verus!
