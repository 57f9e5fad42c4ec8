use vstd::prelude::*;

use crate::correlation::CorrelationProvider;
use crate::correlation::origin::{OriginCorrelationProvider, lemma_origin_correlation, origin_corr};
use crate::correlation::simple::{
    SimpleCorrelationProvider, lemma_simple_corr_unique, simple_corr,
};
use crate::ddd::entity::EntityView;
use crate::ddd::metadata::{MetaData, MetaView, has_key, meta_merge, unique_keys};
use crate::message::base::Message;

verus! {

/// One configured correlation strategy; a [`MultiCorrelationProvider`]
/// composes a sequence of them.
#[derive(Debug)]
pub enum Provider {
    Simple(SimpleCorrelationProvider),
    Origin(OriginCorrelationProvider),
}

/// What one composed provider computes, with `fresh` standing for the
/// fresh string an origin provider may generate.
pub open spec fn provider_corr(
    p: Provider,
    meta: MetaView,
    ident: EntityView,
    fresh: Seq<char>,
) -> MetaView {
    match p {
        Provider::Simple(s) => simple_corr(s.keys_view(), meta),
        Provider::Origin(o) => origin_corr(meta, ident, o.trace_root, fresh),
    }
}

/// What a [`MultiCorrelationProvider`] computes: every provider's output,
/// merged left to right, so providers later in the configured sequence
/// override keys set by earlier ones.
pub open spec fn multi_corr(
    ps: Seq<Provider>,
    meta: MetaView,
    ident: EntityView,
    freshes: Seq<Seq<char>>,
) -> MetaView
    decreases ps.len(),
{
    if ps.len() == 0 {
        Seq::empty()
    } else {
        meta_merge(
            multi_corr(ps.drop_last(), meta, ident, freshes.drop_last()),
            provider_corr(ps.last(), meta, ident, freshes.last()),
        )
    }
}

impl Provider {
    /// The correlation data this strategy computes for the given message.
    pub fn correlation_of<T: Message>(&self, message: T) -> (r: MetaData)
        ensures
            exists|fresh: Seq<char>|
                fresh.len() == 36 && r@ == #[trigger] provider_corr(
                    *self,
                    message.meta_view(),
                    message.id_view(),
                    fresh,
                ),
    {
        match self {
            Provider::Simple(s) => {
                let r = s.correlation_for(message);
                proof {
                    let ghost w: Seq<char> = Seq::new(36, |i: int| ' ');
                    assert(w.len() == 36 && r@ == provider_corr(
                        *self,
                        message.meta_view(),
                        message.id_view(),
                        w,
                    ));
                }
                r
            },
            Provider::Origin(o) => {
                let r = o.correlation_for(message);
                proof {
                    let w = choose|fresh: Seq<char>|
                        fresh.len() == 36 && r@ == #[trigger] origin_corr(
                            message.meta_view(),
                            message.id_view(),
                            o.trace_root,
                            fresh,
                        );
                    assert(w.len() == 36 && r@ == provider_corr(
                        *self,
                        message.meta_view(),
                        message.id_view(),
                        w,
                    ));
                }
                r
            },
        }
    }
}

impl<T: Message> CorrelationProvider<T> for Provider {
    /// Exactly what the wrapped strategy computes.
    fn correlation_for(&self, message: T) -> (r: MetaData)
        ensures
            exists|fresh: Seq<char>|
                fresh.len() == 36 && r@ == #[trigger] provider_corr(
                    *self,
                    message.meta_view(),
                    message.id_view(),
                    fresh,
                ),
    {
        self.correlation_of(message)
    }
}

/// Composes an ordered sequence of correlation strategies and merges their
/// outputs deterministically: later providers override earlier ones on a
/// key collision.
#[derive(Debug)]
pub struct MultiCorrelationProvider {
    providers: Vec<Provider>,
}

impl MultiCorrelationProvider {
    /// The configured strategies, in order.
    pub closed spec fn providers_view(&self) -> Seq<Provider> {
        self.providers@
    }

    /// A provider that composes exactly the given strategies, in order.
    pub fn new(providers: Vec<Provider>) -> (r: MultiCorrelationProvider)
        ensures
            r.providers_view() == providers@,
    {
        MultiCorrelationProvider { providers }
    }
}

impl<T: Message> CorrelationProvider<T> for MultiCorrelationProvider {
    /// Every configured provider's output, merged left to right, for some
    /// sequence of fresh 36-character strings standing for what the origin
    /// providers may have generated.
    #[verifier::loop_isolation(false)]
    fn correlation_for(&self, message: T) -> (r: MetaData)
        ensures
            exists|freshes: Seq<Seq<char>>|
                freshes.len() == self.providers_view().len() && r@ == #[trigger] multi_corr(
                    self.providers_view(),
                    message.meta_view(),
                    message.id_view(),
                    freshes,
                ),
    {
        let mut out = MetaData::new();
        let ghost mut gfs: Seq<Seq<char>> = Seq::empty();
        let mut i: usize = 0;
        while i < self.providers.len()
            invariant
                i <= self.providers.len(),
                gfs.len() == i as int,
                out@ == multi_corr(
                    self.providers@.take(i as int),
                    message.meta_view(),
                    message.id_view(),
                    gfs,
                ),
            decreases self.providers.len() - i,
        {
            let ghost gfs0 = gfs;
            let ghost out0 = out@;
            let m = message.dup();
            let part = self.providers[i].correlation_of(m);
            proof {
                let f = choose|fresh: Seq<char>|
                    fresh.len() == 36 && part@ == #[trigger] provider_corr(
                        self.providers@[i as int],
                        message.meta_view(),
                        message.id_view(),
                        fresh,
                    );
                gfs = gfs0.push(f);
            }
            out.merge(&part);
            proof {
                let meta = message.meta_view();
                let ident = message.id_view();
                let taken = self.providers@.take(i as int + 1);
                assert(gfs.drop_last() =~= gfs0);
                assert(taken.drop_last() =~= self.providers@.take(i as int));
                assert(taken.last() == self.providers@[i as int]);
                assert(part@ == provider_corr(self.providers@[i as int], meta, ident, gfs.last()));
                assert(out@ == meta_merge(multi_corr(taken.drop_last(), meta, ident, gfs.drop_last()),
                    provider_corr(taken.last(), meta, ident, gfs.last())));
                assert(out@ == multi_corr(taken, meta, ident, gfs));
            }
            i = i + 1;
        }
        proof {
            assert(self.providers@.take(self.providers@.len() as int) =~= self.providers@);
            assert(out@ == multi_corr(
                self.providers_view(),
                message.meta_view(),
                message.id_view(),
                gfs,
            ));
        }
        out
    }
}

/// Merging a metadata view with unique keys into the empty view gives it
/// back unchanged.
pub proof fn lemma_merge_empty_left(b: MetaView)
    requires
        unique_keys(b),
    ensures
        meta_merge(Seq::empty(), b) == b,
    decreases b.len(),
{
    if b.len() == 0 {
        assert(meta_merge(Seq::empty(), b) =~= b);
    } else {
        let rest = b.drop_last();
        assert(unique_keys(rest)) by {
            assert(forall|i: int| 0 <= i < rest.len() ==> rest[i] == b[i]);
        }
        lemma_merge_empty_left(rest);
        assert(!has_key(rest, b.last().0)) by {
            if has_key(rest, b.last().0) {
                let j = choose|j: int| 0 <= j < rest.len() && rest[j].0 == b.last().0;
                assert(b[j].0 == b[b.len() - 1].0);
            }
        }
        assert(meta_merge(Seq::empty(), b) == rest.push(b.last()));
        assert(rest.push(b.last()) =~= b);
    }
}

/// Every composed strategy's output has unique keys.
pub proof fn lemma_provider_corr_unique(
    p: Provider,
    meta: MetaView,
    ident: EntityView,
    fresh: Seq<char>,
)
    ensures
        unique_keys(provider_corr(p, meta, ident, fresh)),
{
    match p {
        Provider::Simple(s) => {
            lemma_simple_corr_unique(s.keys_view(), meta);
        },
        Provider::Origin(o) => {
            lemma_origin_correlation(meta, ident, o.trace_root, fresh);
        },
    }
}

/// The multi provider's guarantee for a pair: composing `[p1, p2]` computes
/// exactly the merge of the two providers' own outputs, with `p2`'s entries
/// overriding on a key collision.
pub proof fn lemma_multi_pair(
    p1: Provider,
    p2: Provider,
    meta: MetaView,
    ident: EntityView,
    f1: Seq<char>,
    f2: Seq<char>,
)
    ensures
        multi_corr(seq![p1, p2], meta, ident, seq![f1, f2]) == meta_merge(
            provider_corr(p1, meta, ident, f1),
            provider_corr(p2, meta, ident, f2),
        ),
{
    let ps = seq![p1, p2];
    let fs = seq![f1, f2];
    assert(ps.drop_last() =~= seq![p1]);
    assert(fs.drop_last() =~= seq![f1]);
    assert(seq![p1].drop_last() =~= Seq::<Provider>::empty());
    assert(seq![f1].drop_last() =~= Seq::<Seq<char>>::empty());
    assert(multi_corr(Seq::empty(), meta, ident, Seq::empty()) == Seq::<
        (Seq<char>, crate::ddd::value::ValView),
    >::empty());
    lemma_provider_corr_unique(p1, meta, ident, f1);
    lemma_merge_empty_left(provider_corr(p1, meta, ident, f1));
    assert(multi_corr(seq![p1], meta, ident, seq![f1]) == provider_corr(p1, meta, ident, f1));
}

} // verus!
